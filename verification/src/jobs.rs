//! What a deployment job decides: which configuration it deploys, under
//! which key the running stack is registered, and what it reports.

use vstd::prelude::*;

use crate::simplets::email_airdrop::EmailAirdropBuilder;
use crate::simplets::proof_of_attendance::ProofOfAttendanceBuilder;
use crate::simplets::{
    clone_smtp, clone_text, text_of, CommonConfig, CommonConfigView, ServiceType,
    SimpletsBuilder,
};

verus! {

/// `first` where it is set, else `second`.
pub open spec fn prefer<T>(first: Option<T>, second: Option<T>) -> Option<T> {
    if first is Some {
        first
    } else {
        second
    }
}

/// The configuration that a job deploys: each field from `overrides` where
/// the caller set it, else from `defaults`. The API key and its secret are
/// a pair: they are set where both can be had, and both are left out where
/// one of them is missing.
pub open spec fn merged_config(
    defaults: CommonConfigView,
    overrides: CommonConfigView,
) -> CommonConfigView {
    let key = prefer(overrides.apillon_key, defaults.apillon_key);
    let secret = prefer(overrides.apillon_secret, defaults.apillon_secret);
    let paired = key is Some && secret is Some;
    CommonConfigView {
        app_secret: prefer(overrides.app_secret, defaults.app_secret),
        app_url: prefer(overrides.app_url, defaults.app_url),
        mysql_password: prefer(overrides.mysql_password, defaults.mysql_password),
        mysql_db: prefer(overrides.mysql_db, defaults.mysql_db),
        admin_wallet: prefer(overrides.admin_wallet, defaults.admin_wallet),
        apillon_key: if paired { key } else { None },
        apillon_secret: if paired { secret } else { None },
        smtp_config: prefer(overrides.smtp_config, defaults.smtp_config),
    }
}

/// Where the caller overrides a field, the merged configuration holds the
/// caller's value, whatever the default; where the caller sets nothing, it
/// holds the default. For the API key and its secret this is so wherever
/// the caller sets both.
pub proof fn lemma_override_wins(defaults: CommonConfigView, overrides: CommonConfigView)
    ensures
        overrides.app_secret is Some ==> merged_config(defaults, overrides).app_secret
            == overrides.app_secret,
        overrides.app_url is Some ==> merged_config(defaults, overrides).app_url
            == overrides.app_url,
        overrides.mysql_password is Some ==> merged_config(defaults, overrides).mysql_password
            == overrides.mysql_password,
        overrides.mysql_db is Some ==> merged_config(defaults, overrides).mysql_db
            == overrides.mysql_db,
        overrides.admin_wallet is Some ==> merged_config(defaults, overrides).admin_wallet
            == overrides.admin_wallet,
        overrides.smtp_config is Some ==> merged_config(defaults, overrides).smtp_config
            == overrides.smtp_config,
        overrides.apillon_key is Some && overrides.apillon_secret is Some ==> merged_config(
            defaults,
            overrides,
        ).apillon_key == overrides.apillon_key && merged_config(defaults, overrides).apillon_secret
            == overrides.apillon_secret,
        overrides.app_secret is None ==> merged_config(defaults, overrides).app_secret
            == defaults.app_secret,
        overrides.app_url is None ==> merged_config(defaults, overrides).app_url
            == defaults.app_url,
        overrides.mysql_password is None ==> merged_config(defaults, overrides).mysql_password
            == defaults.mysql_password,
        overrides.mysql_db is None ==> merged_config(defaults, overrides).mysql_db
            == defaults.mysql_db,
        overrides.admin_wallet is None ==> merged_config(defaults, overrides).admin_wallet
            == defaults.admin_wallet,
        overrides.smtp_config is None ==> merged_config(defaults, overrides).smtp_config
            == defaults.smtp_config,
{
}

/// The name of a kind of simplet as it is written in reports.
pub open spec fn display_name(kind: ServiceType) -> Seq<char> {
    match kind {
        ServiceType::ProofOfAttendance => "Proof of Attendance"@,
        ServiceType::EmailAirdrop => "Email Airdrop"@,
    }
}

/// The key under which a running stack is registered: the name of its
/// service, an underscore, and the identity of its configuration.
pub open spec fn registry_key_of(kind: ServiceType, unique_id: Seq<char>) -> Seq<char> {
    kind.service_name() + "_"@ + unique_id
}

/// What a job reports of a deployment that succeeded or failed.
pub open spec fn report_of(kind: ServiceType, deployed: bool) -> Seq<char> {
    if deployed {
        display_name(kind) + " simplet deployed successfully!"@
    } else {
        "Failed to deploy "@ + display_name(kind) + " simplet!"@
    }
}

/// A copy of `first` where it is set, else of `second`.
fn prefer_text(first: &Option<String>, second: &Option<String>) -> (chosen: Option<String>)
    ensures
        text_of(chosen) == prefer(text_of(*first), text_of(*second)),
{
    match first {
        Some(text) => Some(text.clone()),
        None => clone_text(second),
    }
}

/// Merges the caller's overrides over the defaults of the service.
pub fn merge_configs(defaults: &CommonConfig, overrides: &CommonConfig) -> (merged: CommonConfig)
    ensures
        merged@ == merged_config(defaults@, overrides@),
{
    let key = prefer_text(&overrides.apillon_key, &defaults.apillon_key);
    let secret = prefer_text(&overrides.apillon_secret, &defaults.apillon_secret);
    let paired = key.is_some() && secret.is_some();
    let smtp_config = match &overrides.smtp_config {
        Some(smtp) => Some(smtp.clone()),
        None => clone_smtp(&defaults.smtp_config),
    };
    CommonConfig {
        app_secret: prefer_text(&overrides.app_secret, &defaults.app_secret),
        app_url: prefer_text(&overrides.app_url, &defaults.app_url),
        mysql_password: prefer_text(&overrides.mysql_password, &defaults.mysql_password),
        mysql_db: prefer_text(&overrides.mysql_db, &defaults.mysql_db),
        admin_wallet: prefer_text(&overrides.admin_wallet, &defaults.admin_wallet),
        apillon_key: if paired { key } else { None },
        apillon_secret: if paired { secret } else { None },
        smtp_config,
    }
}

/// The builder of a proof-of-attendance job: every field that the merged
/// configuration holds is set, and no other.
pub fn proof_of_attendance_builder(defaults: &CommonConfig, custom: &CommonConfig) -> (builder:
    ProofOfAttendanceBuilder)
    ensures
        builder.common() == merged_config(defaults@, custom@),
{
    let merged = merge_configs(defaults, custom);
    let mut builder = ProofOfAttendanceBuilder::new();
    if let Some(secret) = &merged.app_secret {
        builder = builder.app_secret(secret.as_str());
    }
    if let Some(url) = &merged.app_url {
        builder = builder.app_url(url.as_str());
    }
    if let Some(password) = &merged.mysql_password {
        builder = builder.mysql_password(password.as_str());
    }
    if let Some(db) = &merged.mysql_db {
        builder = builder.mysql_db(db.as_str());
    }
    if let Some(wallet) = &merged.admin_wallet {
        builder = builder.admin_wallet(wallet.as_str());
    }
    if let Some(key) = &merged.apillon_key {
        if let Some(secret) = &merged.apillon_secret {
            builder = builder.apillon_credentials(key.as_str(), secret.as_str());
        }
    }
    if let Some(smtp) = &merged.smtp_config {
        builder = builder.smtp_config(smtp.clone());
    }
    builder
}

/// The builder of an email-airdrop job: every field that the merged
/// configuration holds is set, and no other; a job names no collection.
pub fn email_airdrop_builder(defaults: &CommonConfig, custom: &CommonConfig) -> (builder:
    EmailAirdropBuilder)
    ensures
        builder.common() == merged_config(defaults@, custom@),
        builder.collection() == None::<Seq<char>>,
{
    let merged = merge_configs(defaults, custom);
    let mut builder = EmailAirdropBuilder::new();
    if let Some(secret) = &merged.app_secret {
        builder = builder.app_secret(secret.as_str());
    }
    if let Some(url) = &merged.app_url {
        builder = builder.app_url(url.as_str());
    }
    if let Some(password) = &merged.mysql_password {
        builder = builder.mysql_password(password.as_str());
    }
    if let Some(db) = &merged.mysql_db {
        builder = builder.mysql_db(db.as_str());
    }
    if let Some(wallet) = &merged.admin_wallet {
        builder = builder.admin_wallet(wallet.as_str());
    }
    if let Some(key) = &merged.apillon_key {
        if let Some(secret) = &merged.apillon_secret {
            builder = builder.apillon_credentials(key.as_str(), secret.as_str());
        }
    }
    if let Some(smtp) = &merged.smtp_config {
        builder = builder.smtp_config(smtp.clone());
    }
    builder
}

/// How a job ends.
#[derive(Debug)]
pub struct JobOutcome {
    /// The key under which the running stack is to be registered; `None`
    /// where the deployment failed and nothing is registered.
    pub registered_as: Option<String>,
    /// What the job reports to its caller.
    pub report: String,
}

/// How a job of `kind` ends, whose configuration has the identity
/// `unique_id`: a stack that was deployed is registered under its key, a
/// failure registers nothing, and either is reported in words.
pub fn conclude(kind: ServiceType, unique_id: &str, deployed: bool) -> (outcome: JobOutcome)
    ensures
        text_of(outcome.registered_as) == if deployed {
            Some(registry_key_of(kind, unique_id@))
        } else {
            None
        },
        outcome.report@ == report_of(kind, deployed),
{
    let registered_as = if deployed {
        Some(registry_key(kind, unique_id))
    } else {
        None
    };
    JobOutcome { registered_as, report: deployment_report(kind, deployed) }
}

/// The key under which the stack of a deployment is registered.
pub fn registry_key(kind: ServiceType, unique_id: &str) -> (key: String)
    ensures
        key@ == registry_key_of(kind, unique_id@),
{
    String::from_str(kind.get_service_name()).concat("_").concat(unique_id)
}

/// The name of a kind of simplet as it is written in reports.
fn get_display_name(kind: ServiceType) -> (name: &'static str)
    ensures
        name@ == display_name(kind),
{
    match kind {
        ServiceType::ProofOfAttendance => "Proof of Attendance",
        ServiceType::EmailAirdrop => "Email Airdrop",
    }
}

/// The report of a job. A failed deployment is reported in words too: a
/// job never fails outright.
pub fn deployment_report(kind: ServiceType, deployed: bool) -> (report: String)
    ensures
        report@ == report_of(kind, deployed),
{
    if deployed {
        String::from_str(get_display_name(kind)).concat(" simplet deployed successfully!")
    } else {
        String::from_str("Failed to deploy ").concat(get_display_name(kind)).concat(" simplet!")
    }
}

} // verus!
