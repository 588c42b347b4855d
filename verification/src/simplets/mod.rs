//! Configuration of a simplet and the environment it expands to.

use vstd::prelude::*;

pub mod distinct;
pub mod email_airdrop;
pub mod env;
pub mod identity;
pub mod lifecycle;
pub mod proof_of_attendance;
pub mod stack;

use crate::simplets::env::EnvVars;
use crate::simplets::identity::{derive_id, identity_of};
use crate::simplets::lifecycle::{ContainerRole, StackAction, StackState};
use crate::simplets::stack::ApillonSimpletsDocker;

verus! {

/// Mail server settings, always given as one complete unit.
#[derive(Debug)]
pub struct SmtpConfig {
    pub host: String,
    pub port: String,
    pub username: String,
    pub password: String,
    pub email_from: String,
    pub name_from: String,
}

/// What an [`SmtpConfig`] holds, as plain sequences of characters.
pub ghost struct SmtpConfigView {
    pub host: Seq<char>,
    pub port: Seq<char>,
    pub username: Seq<char>,
    pub password: Seq<char>,
    pub email_from: Seq<char>,
    pub name_from: Seq<char>,
}

impl View for SmtpConfig {
    type V = SmtpConfigView;

    open spec fn view(&self) -> SmtpConfigView {
        SmtpConfigView {
            host: self.host@,
            port: self.port@,
            username: self.username@,
            password: self.password@,
            email_from: self.email_from@,
            name_from: self.name_from@,
        }
    }
}

impl Clone for SmtpConfig {
    fn clone(&self) -> (copy: Self)
        ensures
            copy@ == self@,
    {
        SmtpConfig {
            host: self.host.clone(),
            port: self.port.clone(),
            username: self.username.clone(),
            password: self.password.clone(),
            email_from: self.email_from.clone(),
            name_from: self.name_from.clone(),
        }
    }
}

/// The parameters that every kind of simplet accepts. A field that is
/// `None` is left to the default chosen when the application environment is
/// wired.
#[derive(Debug)]
pub struct CommonConfig {
    pub app_secret: Option<String>,
    pub app_url: Option<String>,
    pub mysql_password: Option<String>,
    pub mysql_db: Option<String>,
    pub admin_wallet: Option<String>,
    pub apillon_key: Option<String>,
    pub apillon_secret: Option<String>,
    pub smtp_config: Option<SmtpConfig>,
}

/// What a [`CommonConfig`] holds, as plain sequences of characters.
pub ghost struct CommonConfigView {
    pub app_secret: Option<Seq<char>>,
    pub app_url: Option<Seq<char>>,
    pub mysql_password: Option<Seq<char>>,
    pub mysql_db: Option<Seq<char>>,
    pub admin_wallet: Option<Seq<char>>,
    pub apillon_key: Option<Seq<char>>,
    pub apillon_secret: Option<Seq<char>>,
    pub smtp_config: Option<SmtpConfigView>,
}

impl CommonConfigView {
    pub open spec fn with_app_secret(self, secret: Seq<char>) -> Self {
        CommonConfigView { app_secret: Some(secret), ..self }
    }

    pub open spec fn with_app_url(self, url: Seq<char>) -> Self {
        CommonConfigView { app_url: Some(url), ..self }
    }

    pub open spec fn with_mysql_password(self, password: Seq<char>) -> Self {
        CommonConfigView { mysql_password: Some(password), ..self }
    }

    pub open spec fn with_mysql_db(self, db: Seq<char>) -> Self {
        CommonConfigView { mysql_db: Some(db), ..self }
    }

    pub open spec fn with_admin_wallet(self, wallet: Seq<char>) -> Self {
        CommonConfigView { admin_wallet: Some(wallet), ..self }
    }

    pub open spec fn with_apillon_credentials(self, key: Seq<char>, secret: Seq<char>) -> Self {
        CommonConfigView { apillon_key: Some(key), apillon_secret: Some(secret), ..self }
    }

    pub open spec fn with_smtp_config(self, smtp: SmtpConfigView) -> Self {
        CommonConfigView { smtp_config: Some(smtp), ..self }
    }
}

/// The characters of an optional string.
pub open spec fn text_of(value: Option<String>) -> Option<Seq<char>> {
    match value {
        Some(s) => Some(s@),
        None => None,
    }
}

/// The contents of an optional mail server record.
pub open spec fn smtp_of(value: Option<SmtpConfig>) -> Option<SmtpConfigView> {
    match value {
        Some(s) => Some(s@),
        None => None,
    }
}

impl View for CommonConfig {
    type V = CommonConfigView;

    open spec fn view(&self) -> CommonConfigView {
        CommonConfigView {
            app_secret: text_of(self.app_secret),
            app_url: text_of(self.app_url),
            mysql_password: text_of(self.mysql_password),
            mysql_db: text_of(self.mysql_db),
            admin_wallet: text_of(self.admin_wallet),
            apillon_key: text_of(self.apillon_key),
            apillon_secret: text_of(self.apillon_secret),
            smtp_config: smtp_of(self.smtp_config),
        }
    }
}

/// A copy of an optional string.
pub(crate) fn clone_text(value: &Option<String>) -> (copy: Option<String>)
    ensures
        text_of(copy) == text_of(*value),
{
    match value {
        Some(s) => Some(s.clone()),
        None => None,
    }
}

/// A copy of an optional mail server record.
pub(crate) fn clone_smtp(value: &Option<SmtpConfig>) -> (copy: Option<SmtpConfig>)
    ensures
        smtp_of(copy) == smtp_of(*value),
{
    match value {
        Some(s) => Some(s.clone()),
        None => None,
    }
}

impl Clone for CommonConfig {
    fn clone(&self) -> (copy: Self)
        ensures
            copy@ == self@,
    {
        CommonConfig {
            app_secret: clone_text(&self.app_secret),
            app_url: clone_text(&self.app_url),
            mysql_password: clone_text(&self.mysql_password),
            mysql_db: clone_text(&self.mysql_db),
            admin_wallet: clone_text(&self.admin_wallet),
            apillon_key: clone_text(&self.apillon_key),
            apillon_secret: clone_text(&self.apillon_secret),
            smtp_config: clone_smtp(&self.smtp_config),
        }
    }
}

/// `vars` with `key` set to `value` where there is one, unchanged where
/// there is none.
pub open spec fn with_optional(
    vars: Map<Seq<char>, Seq<char>>,
    key: Seq<char>,
    value: Option<Seq<char>>,
) -> Map<Seq<char>, Seq<char>> {
    match value {
        Some(v) => vars.insert(key, v),
        None => vars,
    }
}

/// `vars` with the six mail server variables set from `smtp`.
pub open spec fn with_smtp(
    vars: Map<Seq<char>, Seq<char>>,
    smtp: SmtpConfigView,
) -> Map<Seq<char>, Seq<char>> {
    vars.insert("SMTP_HOST"@, smtp.host).insert("SMTP_PORT"@, smtp.port).insert(
        "SMTP_USERNAME"@,
        smtp.username,
    ).insert("SMTP_PASSWORD"@, smtp.password).insert("SMTP_EMAIL_FROM"@, smtp.email_from).insert(
        "SMTP_NAME_FROM"@,
        smtp.name_from,
    )
}

/// The variables that a configuration sets: one for each field that is
/// present, six for a mail server record, and nothing for an absent field.
pub open spec fn common_env(config: CommonConfigView) -> Map<Seq<char>, Seq<char>> {
    let vars = Map::<Seq<char>, Seq<char>>::empty();
    let vars = with_optional(vars, "APP_SECRET"@, config.app_secret);
    let vars = with_optional(vars, "APP_URL"@, config.app_url);
    let vars = with_optional(vars, "MYSQL_PASSWORD"@, config.mysql_password);
    let vars = with_optional(vars, "MYSQL_DB"@, config.mysql_db);
    let vars = with_optional(vars, "ADMIN_WALLET"@, config.admin_wallet);
    let vars = with_optional(vars, "APILLON_KEY"@, config.apillon_key);
    let vars = with_optional(vars, "APILLON_SECRET"@, config.apillon_secret);
    match config.smtp_config {
        Some(smtp) => with_smtp(vars, smtp),
        None => vars,
    }
}

impl CommonConfig {

    /// Expands the configuration into the variables it sets. Absent fields
    /// set nothing: the result holds overrides, not a final environment.
    pub fn build_env_vars(&self) -> (env_vars: EnvVars)
        ensures
            env_vars@ == common_env(self@),
    {
        let mut env_vars = EnvVars::new();
        if let Some(secret) = &self.app_secret {
            env_vars.insert(String::from_str("APP_SECRET"), secret.clone());
        }
        if let Some(url) = &self.app_url {
            env_vars.insert(String::from_str("APP_URL"), url.clone());
        }
        if let Some(password) = &self.mysql_password {
            env_vars.insert(String::from_str("MYSQL_PASSWORD"), password.clone());
        }
        if let Some(db) = &self.mysql_db {
            env_vars.insert(String::from_str("MYSQL_DB"), db.clone());
        }
        if let Some(wallet) = &self.admin_wallet {
            env_vars.insert(String::from_str("ADMIN_WALLET"), wallet.clone());
        }
        if let Some(key) = &self.apillon_key {
            env_vars.insert(String::from_str("APILLON_KEY"), key.clone());
        }
        if let Some(secret) = &self.apillon_secret {
            env_vars.insert(String::from_str("APILLON_SECRET"), secret.clone());
        }
        if let Some(smtp) = &self.smtp_config {
            env_vars.insert(String::from_str("SMTP_HOST"), smtp.host.clone());
            env_vars.insert(String::from_str("SMTP_PORT"), smtp.port.clone());
            env_vars.insert(String::from_str("SMTP_USERNAME"), smtp.username.clone());
            env_vars.insert(String::from_str("SMTP_PASSWORD"), smtp.password.clone());
            env_vars.insert(String::from_str("SMTP_EMAIL_FROM"), smtp.email_from.clone());
            env_vars.insert(String::from_str("SMTP_NAME_FROM"), smtp.name_from.clone());
        }
        env_vars
    }
}

/// The configuration with no field set.
pub open spec fn unset_config() -> CommonConfigView {
    CommonConfigView {
        app_secret: None,
        app_url: None,
        mysql_password: None,
        mysql_db: None,
        admin_wallet: None,
        apillon_key: None,
        apillon_secret: None,
        smtp_config: None,
    }
}

/// A configuration with no field set expands to no variable, and a
/// configuration with one field set expands to exactly the variable of that
/// field, with the field's value.
pub proof fn lemma_one_field_one_variable(value: Seq<char>)
    ensures
        common_env(unset_config()) == Map::<Seq<char>, Seq<char>>::empty(),
        common_env(CommonConfigView { app_secret: Some(value), ..unset_config() }) == Map::<
            Seq<char>,
            Seq<char>,
        >::empty().insert("APP_SECRET"@, value),
        common_env(CommonConfigView { app_url: Some(value), ..unset_config() }) == Map::<
            Seq<char>,
            Seq<char>,
        >::empty().insert("APP_URL"@, value),
        common_env(CommonConfigView { mysql_password: Some(value), ..unset_config() }) == Map::<
            Seq<char>,
            Seq<char>,
        >::empty().insert("MYSQL_PASSWORD"@, value),
        common_env(CommonConfigView { mysql_db: Some(value), ..unset_config() }) == Map::<
            Seq<char>,
            Seq<char>,
        >::empty().insert("MYSQL_DB"@, value),
        common_env(CommonConfigView { admin_wallet: Some(value), ..unset_config() }) == Map::<
            Seq<char>,
            Seq<char>,
        >::empty().insert("ADMIN_WALLET"@, value),
        common_env(CommonConfigView { apillon_key: Some(value), ..unset_config() }) == Map::<
            Seq<char>,
            Seq<char>,
        >::empty().insert("APILLON_KEY"@, value),
        common_env(CommonConfigView { apillon_secret: Some(value), ..unset_config() }) == Map::<
            Seq<char>,
            Seq<char>,
        >::empty().insert("APILLON_SECRET"@, value),
{
}

/// The names of the thirteen variables that a common configuration can set.
pub open spec fn common_names() -> Set<Seq<char>> {
    set![
        "APP_SECRET"@,
        "APP_URL"@,
        "MYSQL_PASSWORD"@,
        "MYSQL_DB"@,
        "ADMIN_WALLET"@,
        "APILLON_KEY"@,
        "APILLON_SECRET"@,
        "SMTP_HOST"@,
        "SMTP_PORT"@,
        "SMTP_USERNAME"@,
        "SMTP_PASSWORD"@,
        "SMTP_EMAIL_FROM"@,
        "SMTP_NAME_FROM"@,
    ]
}

/// What `vars` holds under `key`, if anything.
pub open spec fn lookup(vars: Map<Seq<char>, Seq<char>>, key: Seq<char>) -> Option<Seq<char>> {
    if vars.contains_key(key) {
        Some(vars[key])
    } else {
        None
    }
}

/// For every configuration, each field stands under its own variable and
/// under no other: a variable is set exactly where its field is present,
/// to the field's value, the six mail server variables exactly where the
/// record is present, and no variable beyond these thirteen is set.
pub proof fn lemma_common_env_by_field(config: CommonConfigView)
    ensures
        lookup(common_env(config), "APP_SECRET"@) == config.app_secret,
        lookup(common_env(config), "APP_URL"@) == config.app_url,
        lookup(common_env(config), "MYSQL_PASSWORD"@) == config.mysql_password,
        lookup(common_env(config), "MYSQL_DB"@) == config.mysql_db,
        lookup(common_env(config), "ADMIN_WALLET"@) == config.admin_wallet,
        lookup(common_env(config), "APILLON_KEY"@) == config.apillon_key,
        lookup(common_env(config), "APILLON_SECRET"@) == config.apillon_secret,
        match config.smtp_config {
            Some(smtp) => {
                &&& lookup(common_env(config), "SMTP_HOST"@) == Some(smtp.host)
                &&& lookup(common_env(config), "SMTP_PORT"@) == Some(smtp.port)
                &&& lookup(common_env(config), "SMTP_USERNAME"@) == Some(smtp.username)
                &&& lookup(common_env(config), "SMTP_PASSWORD"@) == Some(smtp.password)
                &&& lookup(common_env(config), "SMTP_EMAIL_FROM"@) == Some(smtp.email_from)
                &&& lookup(common_env(config), "SMTP_NAME_FROM"@) == Some(smtp.name_from)
            },
            None => {
                &&& !common_env(config).contains_key("SMTP_HOST"@)
                &&& !common_env(config).contains_key("SMTP_PORT"@)
                &&& !common_env(config).contains_key("SMTP_USERNAME"@)
                &&& !common_env(config).contains_key("SMTP_PASSWORD"@)
                &&& !common_env(config).contains_key("SMTP_EMAIL_FROM"@)
                &&& !common_env(config).contains_key("SMTP_NAME_FROM"@)
            },
        },
        common_env(config).dom().subset_of(common_names()),
{
    lemma_common_names_differ();
}

/// One for a value that is present, nothing for one that is absent.
pub open spec fn one_if_set<T>(value: Option<T>) -> nat {
    if value is Some {
        1
    } else {
        0
    }
}

/// The number of variables that a configuration sets: one for each field
/// that is present, and six for a mail server record.
pub open spec fn variables_set(config: CommonConfigView) -> nat {
    one_if_set(config.app_secret) + one_if_set(config.app_url) + one_if_set(
        config.mysql_password,
    ) + one_if_set(config.mysql_db) + one_if_set(config.admin_wallet) + one_if_set(
        config.apillon_key,
    ) + one_if_set(config.apillon_secret) + 6 * one_if_set(config.smtp_config)
}

/// A configuration expands to as many variables as it sets: no two fields
/// share a variable.
pub proof fn lemma_common_env_size(config: CommonConfigView)
    ensures
        common_env(config).dom().finite(),
        common_env(config).len() == variables_set(config),
{
    lemma_common_names_differ();
    let v0 = Map::<Seq<char>, Seq<char>>::empty();
    let v1 = with_optional(v0, "APP_SECRET"@, config.app_secret);
    let v2 = with_optional(v1, "APP_URL"@, config.app_url);
    let v3 = with_optional(v2, "MYSQL_PASSWORD"@, config.mysql_password);
    let v4 = with_optional(v3, "MYSQL_DB"@, config.mysql_db);
    let v5 = with_optional(v4, "ADMIN_WALLET"@, config.admin_wallet);
    let v6 = with_optional(v5, "APILLON_KEY"@, config.apillon_key);
    let v7 = with_optional(v6, "APILLON_SECRET"@, config.apillon_secret);
    assert(v0.dom() =~= Set::<Seq<char>>::empty());
    assert(v1.dom().finite() && v1.len() == one_if_set(config.app_secret));
    assert(v2.dom().finite() && v2.len() == v1.len() + one_if_set(config.app_url));
    assert(v3.dom().finite() && v3.len() == v2.len() + one_if_set(config.mysql_password));
    assert(v4.dom().finite() && v4.len() == v3.len() + one_if_set(config.mysql_db));
    assert(v5.dom().finite() && v5.len() == v4.len() + one_if_set(config.admin_wallet));
    assert(v6.dom().finite() && v6.len() == v5.len() + one_if_set(config.apillon_key));
    assert(v7.dom().finite() && v7.len() == v6.len() + one_if_set(config.apillon_secret));
    match config.smtp_config {
        Some(smtp) => {
            let s1 = v7.insert("SMTP_HOST"@, smtp.host);
            let s2 = s1.insert("SMTP_PORT"@, smtp.port);
            let s3 = s2.insert("SMTP_USERNAME"@, smtp.username);
            let s4 = s3.insert("SMTP_PASSWORD"@, smtp.password);
            let s5 = s4.insert("SMTP_EMAIL_FROM"@, smtp.email_from);
            let s6 = s5.insert("SMTP_NAME_FROM"@, smtp.name_from);
            assert(s1.dom().finite() && s1.len() == v7.len() + 1);
            assert(s2.dom().finite() && s2.len() == s1.len() + 1);
            assert(s3.dom().finite() && s3.len() == s2.len() + 1);
            assert(s4.dom().finite() && s4.len() == s3.len() + 1);
            assert(s5.dom().finite() && s5.len() == s4.len() + 1);
            assert(s6.dom().finite() && s6.len() == s5.len() + 1);
            assert(common_env(config) == s6);
        },
        None => {
            assert(common_env(config) == v7);
        },
    }
}

/// The lengths and letters by which the thirteen variable names differ
/// from one another.
pub(crate) proof fn lemma_common_names_differ()
    ensures
        "APP_SECRET"@.len() == 10,
        "APP_URL"@.len() == 7,
        "MYSQL_PASSWORD"@.len() == 14 && "MYSQL_PASSWORD"@[0] == 'M',
        "MYSQL_DB"@.len() == 8,
        "ADMIN_WALLET"@.len() == 12,
        "APILLON_KEY"@.len() == 11,
        "APILLON_SECRET"@.len() == 14 && "APILLON_SECRET"@[0] == 'A',
        "SMTP_HOST"@.len() == 9 && "SMTP_HOST"@[5] == 'H',
        "SMTP_PORT"@.len() == 9 && "SMTP_PORT"@[5] == 'P',
        "SMTP_USERNAME"@.len() == 13 && "SMTP_USERNAME"@[5] == 'U',
        "SMTP_PASSWORD"@.len() == 13 && "SMTP_PASSWORD"@[5] == 'P',
        "SMTP_EMAIL_FROM"@.len() == 15 && "SMTP_EMAIL_FROM"@[0] == 'S',
        "SMTP_NAME_FROM"@.len() == 14 && "SMTP_NAME_FROM"@[0] == 'S',
{
    reveal_strlit("APP_SECRET");
    reveal_strlit("APP_URL");
    reveal_strlit("MYSQL_PASSWORD");
    reveal_strlit("MYSQL_DB");
    reveal_strlit("ADMIN_WALLET");
    reveal_strlit("APILLON_KEY");
    reveal_strlit("APILLON_SECRET");
    reveal_strlit("SMTP_HOST");
    reveal_strlit("SMTP_PORT");
    reveal_strlit("SMTP_USERNAME");
    reveal_strlit("SMTP_PASSWORD");
    reveal_strlit("SMTP_EMAIL_FROM");
    reveal_strlit("SMTP_NAME_FROM");
}

/// Setting a field twice leaves the value of the second call and nothing
/// of the first.
pub proof fn lemma_second_setting_wins(
    config: CommonConfigView,
    first: Seq<char>,
    second: Seq<char>,
    first_secret: Seq<char>,
    second_secret: Seq<char>,
    first_smtp: SmtpConfigView,
    second_smtp: SmtpConfigView,
)
    ensures
        config.with_app_secret(first).with_app_secret(second) == config.with_app_secret(second),
        config.with_app_url(first).with_app_url(second) == config.with_app_url(second),
        config.with_mysql_password(first).with_mysql_password(second)
            == config.with_mysql_password(second),
        config.with_mysql_db(first).with_mysql_db(second) == config.with_mysql_db(second),
        config.with_admin_wallet(first).with_admin_wallet(second) == config.with_admin_wallet(
            second,
        ),
        config.with_apillon_credentials(first, first_secret).with_apillon_credentials(
            second,
            second_secret,
        ) == config.with_apillon_credentials(second, second_secret),
        config.with_smtp_config(first_smtp).with_smtp_config(second_smtp)
            == config.with_smtp_config(second_smtp),
{
}

/// A finished configuration of one kind of simplet.
pub trait ServiceConfig: Sized {
    /// The variables that the configuration sets.
    spec fn env_model(&self) -> Map<Seq<char>, Seq<char>>;

    /// The configuration in JSON, as it enters the identity.
    spec fn json(&self) -> Seq<char>;

    /// Expands the configuration into the variables it sets.
    fn into_env_vars(self) -> (env_vars: EnvVars)
        ensures
            env_vars@ == self.env_model(),
    ;

    /// Serializes the configuration, its fields in the order of declaration.
    fn to_json(&self) -> (json: String)
        ensures
            json@ == self.json(),
    ;
}

/// A fluent accumulator of the configuration of one kind of simplet. Each
/// setter overwrites what an earlier call of it set.
pub trait SimpletsBuilder: Sized {
    type Config: ServiceConfig;

    /// The configuration accumulated so far.
    spec fn config(&self) -> Self::Config;

    /// The common part of the configuration accumulated so far.
    spec fn common(&self) -> CommonConfigView;

    /// The kind of simplet that the builder deploys.
    spec fn kind() -> ServiceType;

    /// A builder with no field set.
    fn new() -> (builder: Self)
        ensures
            builder.common() == unset_config(),
    ;

    /// Sets the application secret.
    fn app_secret(self, secret: &str) -> (builder: Self)
        ensures
            builder.common() == self.common().with_app_secret(secret@),
    ;

    /// Sets the URL under which the application is reached.
    fn app_url(self, url: &str) -> (builder: Self)
        ensures
            builder.common() == self.common().with_app_url(url@),
    ;

    /// Sets the password of the database.
    fn mysql_password(self, password: &str) -> (builder: Self)
        ensures
            builder.common() == self.common().with_mysql_password(password@),
    ;

    /// Sets the name of the database.
    fn mysql_db(self, db: &str) -> (builder: Self)
        ensures
            builder.common() == self.common().with_mysql_db(db@),
    ;

    /// Sets the address of the administrator's wallet.
    fn admin_wallet(self, wallet: &str) -> (builder: Self)
        ensures
            builder.common() == self.common().with_admin_wallet(wallet@),
    ;

    /// Sets the API key and its secret, which are given together.
    fn apillon_credentials(self, key: &str, secret: &str) -> (builder: Self)
        ensures
            builder.common() == self.common().with_apillon_credentials(key@, secret@),
    ;

    /// Sets the mail server record as a whole.
    fn smtp_config(self, smtp_config: SmtpConfig) -> (builder: Self)
        ensures
            builder.common() == self.common().with_smtp_config(smtp_config@),
    ;

    /// The configuration accumulated so far.
    fn get_config(&self) -> (config: &Self::Config)
        ensures
            *config == self.config(),
    ;

    /// The configuration accumulated so far, to be changed in place.
    fn get_config_mut(&mut self) -> (config: &mut Self::Config)
        ensures
            *config == old(self).config(),
            final(self).config() == *final(config),
    ;

    /// The identity of the configuration accumulated so far. It can be
    /// asked for at any point of the chain.
    fn get_unique_id(&self) -> (id: String)
        ensures
            id@ == identity_of(self.config().json()),
            id@.len() == 64,
    {
        let config = self.get_config();
        let serialized = config.to_json();
        derive_id(serialized.as_str())
    }

    /// Finishes the configuration and begins the deployment of a stack of
    /// the builder's kind.
    fn deploy(self) -> (deployment: (ApillonSimpletsDocker, StackAction))
        ensures
            deployment.0.vars() == self.config().env_model(),
            deployment.0.kind() == Self::kind(),
            deployment.0.phase() == StackState::CreatingDatabase,
            deployment.1 == StackAction::Create(ContainerRole::Database),
    ;
}

/// Begins the deployment of `config` as a stack of kind `service_type`:
/// flattens the configuration, binds a controller to the kind and asks for
/// the first step of startup.
pub fn deploy_service<T: ServiceConfig>(config: T, service_type: ServiceType) -> (deployment: (
    ApillonSimpletsDocker,
    StackAction,
))
    ensures
        deployment.0.vars() == config.env_model(),
        deployment.0.kind() == service_type,
        deployment.0.phase() == StackState::CreatingDatabase,
        deployment.1 == StackAction::Create(ContainerRole::Database),
{
    let env_vars = config.into_env_vars();
    let mut simplets = ApillonSimpletsDocker::new(env_vars, service_type);
    let action = simplets.start();
    (simplets, action)
}

/// The kinds of simplet. Each is bound to one database host name and one
/// application image; neither depends on configuration.
#[derive(Clone, Copy, Debug, PartialEq, Eq, Structural)]
pub enum ServiceType {
    ProofOfAttendance,
    EmailAirdrop,
}

impl ServiceType {
    /// The host name under which the kind's database is reached.
    pub open spec fn db_name(self) -> Seq<char> {
        match self {
            ServiceType::ProofOfAttendance => "poa_db"@,
            ServiceType::EmailAirdrop => "airdrop_db"@,
        }
    }

    /// The image that the kind's application container runs.
    pub open spec fn app_image(self) -> Seq<char> {
        match self {
            ServiceType::ProofOfAttendance => "ps-poa:latest"@,
            ServiceType::EmailAirdrop => "ps-email-airdrop:latest"@,
        }
    }

    /// The name under which the kind is registered.
    pub open spec fn service_name(self) -> Seq<char> {
        match self {
            ServiceType::ProofOfAttendance => "proof_of_attendance"@,
            ServiceType::EmailAirdrop => "email_airdrop"@,
        }
    }

    /// The host name under which the kind's database is reached.
    pub fn get_db_name(&self) -> (name: &'static str)
        ensures
            name@ == self.db_name(),
    {
        match self {
            ServiceType::ProofOfAttendance => "poa_db",
            ServiceType::EmailAirdrop => "airdrop_db",
        }
    }

    /// The image that the kind's application container runs.
    pub fn get_app_image(&self) -> (image: &'static str)
        ensures
            image@ == self.app_image(),
    {
        match self {
            ServiceType::ProofOfAttendance => "ps-poa:latest",
            ServiceType::EmailAirdrop => "ps-email-airdrop:latest",
        }
    }

    /// The name under which the kind is registered.
    pub fn get_service_name(&self) -> (name: &'static str)
        ensures
            name@ == self.service_name(),
    {
        match self {
            ServiceType::ProofOfAttendance => "proof_of_attendance",
            ServiceType::EmailAirdrop => "email_airdrop",
        }
    }
}

} // verus!
