//! The email-airdrop simplet.

use vstd::prelude::*;

use crate::simplets::env::EnvVars;
use crate::simplets::identity::{
    common_to_json, identity_of, json_common, json_optional, push_json_optional,
};
use crate::simplets::lifecycle::StackAction;
use crate::simplets::stack::ApillonSimpletsDocker;
use crate::simplets::{
    common_env, common_names, deploy_service, lemma_common_env_by_field,
    lemma_common_names_differ, lookup, text_of, with_optional, CommonConfig, CommonConfigView,
    ServiceConfig, ServiceType, SimpletsBuilder, SmtpConfig,
};

verus! {

/// The configuration of an email-airdrop simplet: the common parameters
/// and the collection that is dropped.
#[derive(Debug)]
pub struct EmailAirdropConfig {
    common: CommonConfig,
    collection_uuid: Option<String>,
}

/// What an [`EmailAirdropConfig`] holds, as plain values.
pub ghost struct EmailAirdropConfigView {
    pub common: CommonConfigView,
    pub collection_uuid: Option<Seq<char>>,
}

impl View for EmailAirdropConfig {
    type V = EmailAirdropConfigView;

    closed spec fn view(&self) -> EmailAirdropConfigView {
        EmailAirdropConfigView {
            common: self.common@,
            collection_uuid: text_of(self.collection_uuid),
        }
    }
}

impl Clone for EmailAirdropConfig {
    fn clone(&self) -> (copy: Self)
        ensures
            copy@ == self@,
    {
        EmailAirdropConfig {
            common: self.common.clone(),
            collection_uuid: crate::simplets::clone_text(&self.collection_uuid),
        }
    }
}

/// An email-airdrop configuration in JSON.
pub open spec fn json_email_airdrop(config: EmailAirdropConfigView) -> Seq<char> {
    "{\"common\":"@ + json_common(config.common) + ",\"collection_uuid\":"@ + json_optional(
        config.collection_uuid,
    ) + "}"@
}

/// The variables that an email-airdrop configuration sets: those of its
/// common part, and the collection where there is one.
pub open spec fn email_airdrop_env(config: EmailAirdropConfigView) -> Map<Seq<char>, Seq<char>> {
    with_optional(common_env(config.common), "COLLECTION_UUID"@, config.collection_uuid)
}

/// The identity of a configuration depends on what it holds and on
/// nothing else: configurations that hold the same values have the same
/// identity.
pub proof fn lemma_email_airdrop_identity(first: EmailAirdropConfig, second: EmailAirdropConfig)
    requires
        first@ == second@,
    ensures
        identity_of(first.json()) == identity_of(second.json()),
        first.env_model() == second.env_model(),
{
}

/// The collection stands under its own variable exactly where it is set,
/// and the variables of the common part are as they are without it.
pub proof fn lemma_collection_variable(config: EmailAirdropConfigView)
    ensures
        lookup(email_airdrop_env(config), "COLLECTION_UUID"@) == config.collection_uuid,
        forall|name: Seq<char>|
            name != "COLLECTION_UUID"@ ==> lookup(email_airdrop_env(config), name) == lookup(
                common_env(config.common),
                name,
            ),
{
    lemma_common_env_by_field(config.common);
    lemma_common_names_differ();
    reveal_strlit("COLLECTION_UUID");
    assert("COLLECTION_UUID"@.len() == 15 && "COLLECTION_UUID"@[0] == 'C');
    assert(!common_names().contains("COLLECTION_UUID"@));
}

impl ServiceConfig for EmailAirdropConfig {
    open spec fn env_model(&self) -> Map<Seq<char>, Seq<char>> {
        email_airdrop_env(self@)
    }

    open spec fn json(&self) -> Seq<char> {
        json_email_airdrop(self@)
    }

    fn into_env_vars(self) -> (env_vars: EnvVars) {
        let mut env_vars = self.common.build_env_vars();
        if let Some(uuid) = self.collection_uuid {
            env_vars.insert(String::from_str("COLLECTION_UUID"), uuid);
        }
        env_vars
    }

    fn to_json(&self) -> (json: String) {
        let mut json = String::from_str("{\"common\":");
        let common = common_to_json(&self.common);
        json.append(common.as_str());
        json.append(",\"collection_uuid\":");
        push_json_optional(&mut json, &self.collection_uuid);
        json.append("}");
        json
    }
}

/// Accumulates the configuration of an email-airdrop simplet.
pub struct EmailAirdropBuilder {
    config: EmailAirdropConfig,
}

impl SimpletsBuilder for EmailAirdropBuilder {
    type Config = EmailAirdropConfig;

    closed spec fn config(&self) -> EmailAirdropConfig {
        self.config
    }

    open spec fn common(&self) -> CommonConfigView {
        self.config()@.common
    }

    open spec fn kind() -> ServiceType {
        ServiceType::EmailAirdrop
    }

    fn new() -> (builder: Self)
        ensures
            builder.collection() == None::<Seq<char>>,
    {
        EmailAirdropBuilder {
            config: EmailAirdropConfig {
                common: CommonConfig {
                    app_secret: None,
                    app_url: None,
                    mysql_password: None,
                    mysql_db: None,
                    admin_wallet: None,
                    apillon_key: None,
                    apillon_secret: None,
                    smtp_config: None,
                },
                collection_uuid: None,
            },
        }
    }

    fn get_config(&self) -> (config: &EmailAirdropConfig) {
        &self.config
    }

    fn get_config_mut(&mut self) -> (config: &mut EmailAirdropConfig) {
        &mut self.config
    }

    fn app_secret(self, secret: &str) -> (built: Self)
        ensures
            built.collection() == self.collection(),
    {
        let mut builder = self;
        builder.config.common.app_secret = Some(String::from_str(secret));
        builder
    }

    fn app_url(self, url: &str) -> (built: Self)
        ensures
            built.collection() == self.collection(),
    {
        let mut builder = self;
        builder.config.common.app_url = Some(String::from_str(url));
        builder
    }

    fn mysql_password(self, password: &str) -> (built: Self)
        ensures
            built.collection() == self.collection(),
    {
        let mut builder = self;
        builder.config.common.mysql_password = Some(String::from_str(password));
        builder
    }

    fn mysql_db(self, db: &str) -> (built: Self)
        ensures
            built.collection() == self.collection(),
    {
        let mut builder = self;
        builder.config.common.mysql_db = Some(String::from_str(db));
        builder
    }

    fn admin_wallet(self, wallet: &str) -> (built: Self)
        ensures
            built.collection() == self.collection(),
    {
        let mut builder = self;
        builder.config.common.admin_wallet = Some(String::from_str(wallet));
        builder
    }

    fn apillon_credentials(self, key: &str, secret: &str) -> (built: Self)
        ensures
            built.collection() == self.collection(),
    {
        let mut builder = self;
        builder.config.common.apillon_key = Some(String::from_str(key));
        builder.config.common.apillon_secret = Some(String::from_str(secret));
        builder
    }

    fn smtp_config(self, smtp_config: SmtpConfig) -> (built: Self)
        ensures
            built.collection() == self.collection(),
    {
        let mut builder = self;
        builder.config.common.smtp_config = Some(smtp_config);
        builder
    }

    fn deploy(self) -> (deployment: (ApillonSimpletsDocker, StackAction)) {
        deploy_service(self.config, ServiceType::EmailAirdrop)
    }
}

impl EmailAirdropBuilder {
    /// The collection accumulated so far.
    pub open spec fn collection(&self) -> Option<Seq<char>> {
        self.config()@.collection_uuid
    }

    /// Sets the collection that is dropped, replacing an earlier one.
    pub fn collection_uuid(self, uuid: &str) -> (built: Self)
        ensures
            built.common() == self.common(),
            built.collection() == Some(uuid@),
    {
        let mut builder = self;
        builder.config.collection_uuid = Some(String::from_str(uuid));
        builder
    }
}

} // verus!
