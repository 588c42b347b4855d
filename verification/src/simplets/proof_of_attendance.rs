//! The proof-of-attendance simplet.

use vstd::prelude::*;

use crate::simplets::env::EnvVars;
use crate::simplets::identity::{common_to_json, identity_of, json_common};
use crate::simplets::lifecycle::StackAction;
use crate::simplets::stack::ApillonSimpletsDocker;
use crate::simplets::{
    common_env, deploy_service, CommonConfig, CommonConfigView, ServiceConfig, ServiceType,
    SimpletsBuilder, SmtpConfig,
};

verus! {

/// The configuration of a proof-of-attendance simplet: the common
/// parameters and nothing more.
#[derive(Debug)]
pub struct ProofOfAttendanceConfig {
    common: CommonConfig,
}

impl View for ProofOfAttendanceConfig {
    type V = CommonConfigView;

    closed spec fn view(&self) -> CommonConfigView {
        self.common@
    }
}

impl Clone for ProofOfAttendanceConfig {
    fn clone(&self) -> (copy: Self)
        ensures
            copy@ == self@,
    {
        ProofOfAttendanceConfig { common: self.common.clone() }
    }
}

/// A proof-of-attendance configuration in JSON.
pub open spec fn json_proof_of_attendance(config: CommonConfigView) -> Seq<char> {
    "{\"common\":"@ + json_common(config) + "}"@
}

/// The identity of a configuration depends on what it holds and on
/// nothing else: configurations that hold the same values have the same
/// identity.
pub proof fn lemma_proof_of_attendance_identity(
    first: ProofOfAttendanceConfig,
    second: ProofOfAttendanceConfig,
)
    requires
        first@ == second@,
    ensures
        identity_of(first.json()) == identity_of(second.json()),
        first.env_model() == second.env_model(),
{
}

impl ServiceConfig for ProofOfAttendanceConfig {
    open spec fn env_model(&self) -> Map<Seq<char>, Seq<char>> {
        common_env(self@)
    }

    open spec fn json(&self) -> Seq<char> {
        json_proof_of_attendance(self@)
    }

    fn into_env_vars(self) -> (env_vars: EnvVars) {
        self.common.build_env_vars()
    }

    fn to_json(&self) -> (json: String) {
        let mut json = String::from_str("{\"common\":");
        let common = common_to_json(&self.common);
        json.append(common.as_str());
        json.append("}");
        json
    }
}

/// Accumulates the configuration of a proof-of-attendance simplet.
pub struct ProofOfAttendanceBuilder {
    config: ProofOfAttendanceConfig,
}

impl SimpletsBuilder for ProofOfAttendanceBuilder {
    type Config = ProofOfAttendanceConfig;

    closed spec fn config(&self) -> ProofOfAttendanceConfig {
        self.config
    }

    open spec fn common(&self) -> CommonConfigView {
        self.config()@
    }

    open spec fn kind() -> ServiceType {
        ServiceType::ProofOfAttendance
    }

    fn new() -> (builder: Self) {
        ProofOfAttendanceBuilder {
            config: ProofOfAttendanceConfig {
                common: CommonConfig {
                    app_secret: None,
                    app_url: None,
                    mysql_password: None,
                    mysql_db: None,
                    admin_wallet: None,
                    apillon_key: None,
                    apillon_secret: None,
                    smtp_config: None,
                },
            },
        }
    }

    fn get_config(&self) -> (config: &ProofOfAttendanceConfig) {
        &self.config
    }

    fn get_config_mut(&mut self) -> (config: &mut ProofOfAttendanceConfig) {
        &mut self.config
    }

    fn app_secret(self, secret: &str) -> (built: Self) {
        let mut builder = self;
        builder.config.common.app_secret = Some(String::from_str(secret));
        builder
    }

    fn app_url(self, url: &str) -> (built: Self) {
        let mut builder = self;
        builder.config.common.app_url = Some(String::from_str(url));
        builder
    }

    fn mysql_password(self, password: &str) -> (built: Self) {
        let mut builder = self;
        builder.config.common.mysql_password = Some(String::from_str(password));
        builder
    }

    fn mysql_db(self, db: &str) -> (built: Self) {
        let mut builder = self;
        builder.config.common.mysql_db = Some(String::from_str(db));
        builder
    }

    fn admin_wallet(self, wallet: &str) -> (built: Self) {
        let mut builder = self;
        builder.config.common.admin_wallet = Some(String::from_str(wallet));
        builder
    }

    fn apillon_credentials(self, key: &str, secret: &str) -> (built: Self) {
        let mut builder = self;
        builder.config.common.apillon_key = Some(String::from_str(key));
        builder.config.common.apillon_secret = Some(String::from_str(secret));
        builder
    }

    fn smtp_config(self, smtp_config: SmtpConfig) -> (built: Self) {
        let mut builder = self;
        builder.config.common.smtp_config = Some(smtp_config);
        builder
    }

    fn deploy(self) -> (deployment: (ApillonSimpletsDocker, StackAction)) {
        deploy_service(self.config, ServiceType::ProofOfAttendance)
    }
}

} // verus!
