//! The container pair of one deployment: what each container is created
//! with.

use vstd::prelude::*;

use crate::simplets::env::EnvVars;
use crate::simplets::lifecycle::{
    step, transition, ContainerRole, StackAction, StackEvent, StackState,
};
use crate::simplets::{common_env, lemma_common_env_by_field, CommonConfigView, ServiceType};

verus! {

/// The value of `key` in `vars`, or `default` where `key` is not set.
pub open spec fn value_or(
    vars: Map<Seq<char>, Seq<char>>,
    key: Seq<char>,
    default: Seq<char>,
) -> Seq<char> {
    if vars.contains_key(key) {
        vars[key]
    } else {
        default
    }
}

/// The line `name=value`.
pub open spec fn assignment(name: Seq<char>, value: Seq<char>) -> Seq<char> {
    name + "="@ + value
}

/// The characters of each string of a list.
pub open spec fn lines(list: Seq<String>) -> Seq<Seq<char>> {
    list.map_values(|s: String| s@)
}

/// The variables that are passed on to the application only where they are
/// set, in the order in which they are passed on.
pub open spec fn optional_names() -> Seq<Seq<char>> {
    seq![
        "ADMIN_WALLET"@,
        "APILLON_KEY"@,
        "APILLON_SECRET"@,
        "COLLECTION_UUID"@,
        "SMTP_HOST"@,
        "SMTP_PORT"@,
        "SMTP_USERNAME"@,
        "SMTP_PASSWORD"@,
        "SMTP_EMAIL_FROM"@,
        "SMTP_NAME_FROM"@,
    ]
}

/// One line for each of `names` that `vars` sets, in the order of `names`.
pub open spec fn present_assignments(
    vars: Map<Seq<char>, Seq<char>>,
    names: Seq<Seq<char>>,
) -> Seq<Seq<char>>
    decreases names.len(),
{
    if names.len() == 0 {
        Seq::empty()
    } else {
        let before = present_assignments(vars, names.drop_last());
        if vars.contains_key(names.last()) {
            before.push(assignment(names.last(), vars[names.last()]))
        } else {
            before
        }
    }
}

/// The eleven lines that every application container is given: fixed
/// wiring, and the configurable values with their defaults. The database
/// host is the one bound to `kind`, whatever `vars` holds.
pub open spec fn wired_environment(
    vars: Map<Seq<char>, Seq<char>>,
    kind: ServiceType,
) -> Seq<Seq<char>> {
    seq![
        assignment("APP_ENV"@, "production"@),
        assignment("APP_SECRET"@, value_or(vars, "APP_SECRET"@, "secret"@)),
        assignment("APP_URL"@, value_or(vars, "APP_URL"@, "http://localhost:3000"@)),
        assignment("API_PORT"@, "3000"@),
        assignment("API_HOST"@, "0.0.0.0"@),
        assignment("MYSQL_HOST"@, kind.db_name()),
        assignment("MYSQL_PORT"@, "3306"@),
        assignment("MYSQL_DB"@, value_or(vars, "MYSQL_DB"@, "poa"@)),
        assignment("MYSQL_USER"@, "root"@),
        assignment("MYSQL_PASSWORD"@, value_or(vars, "MYSQL_PASSWORD"@, "root"@)),
        assignment("MYSQL_POOL"@, "5"@),
    ]
}

/// The environment of the application container: the wired lines, then the
/// optional variables that `vars` sets.
pub open spec fn app_environment(
    vars: Map<Seq<char>, Seq<char>>,
    kind: ServiceType,
) -> Seq<Seq<char>> {
    wired_environment(vars, kind) + present_assignments(vars, optional_names())
}

/// The environment of the database container.
pub open spec fn database_environment(vars: Map<Seq<char>, Seq<char>>) -> Seq<Seq<char>> {
    seq![
        assignment("MYSQL_ROOT_PASSWORD"@, value_or(vars, "MYSQL_PASSWORD"@, "root"@)),
        assignment("MYSQL_DATABASE"@, value_or(vars, "MYSQL_DB"@, "poa"@)),
    ]
}

/// What a container is created from.
#[derive(Debug)]
pub struct ContainerSpec {
    pub image: String,
    pub env: Vec<String>,
    pub binds: Vec<String>,
}

/// What a [`ContainerSpec`] holds, as plain sequences of characters.
pub ghost struct ContainerSpecView {
    pub image: Seq<char>,
    pub env: Seq<Seq<char>>,
    pub binds: Seq<Seq<char>>,
}

impl View for ContainerSpec {
    type V = ContainerSpecView;

    open spec fn view(&self) -> ContainerSpecView {
        ContainerSpecView {
            image: self.image@,
            env: lines(self.env@),
            binds: lines(self.binds@),
        }
    }
}

/// What the container of `role` is created from, in a stack of `kind`
/// with the variables `vars`. The database runs the stock image with its
/// data directory mounted; the application runs the image bound to the
/// kind.
pub open spec fn container_of(
    vars: Map<Seq<char>, Seq<char>>,
    kind: ServiceType,
    role: ContainerRole,
) -> ContainerSpecView {
    match role {
        ContainerRole::Database => ContainerSpecView {
            image: "mysql"@,
            env: database_environment(vars),
            binds: seq!["./mysql-data:/var/lib/mysql"@],
        },
        ContainerRole::Application => ContainerSpecView {
            image: kind.app_image(),
            env: app_environment(vars, kind),
            binds: seq!["./app-data:/app/data"@],
        },
    }
}

/// Whether `line` is the line of one of `names` that `vars` sets.
pub open spec fn is_line_of(
    vars: Map<Seq<char>, Seq<char>>,
    names: Seq<Seq<char>>,
    line: Seq<char>,
) -> bool {
    exists|j: int|
        0 <= j < names.len() && vars.contains_key(#[trigger] names[j]) && line == assignment(
            names[j],
            vars[names[j]],
        )
}

/// The optional lines are those of the names that are set, no more and
/// no fewer: each line belongs to a name that `vars` sets, each such name
/// has its line, and where `vars` sets none of the names there is no line.
pub proof fn lemma_optional_lines(vars: Map<Seq<char>, Seq<char>>, names: Seq<Seq<char>>)
    ensures
        present_assignments(vars, names).len() <= names.len(),
        forall|i: int|
            0 <= i < present_assignments(vars, names).len() ==> is_line_of(
                vars,
                names,
                #[trigger] present_assignments(vars, names)[i],
            ),
        forall|j: int|
            0 <= j < names.len() && vars.contains_key(#[trigger] names[j]) ==> present_assignments(
                vars,
                names,
            ).contains(assignment(names[j], vars[names[j]])),
        (forall|j: int| 0 <= j < names.len() ==> !vars.contains_key(#[trigger] names[j]))
            ==> present_assignments(vars, names).len() == 0,
    decreases names.len(),
{
    if names.len() > 0 {
        let shorter = names.drop_last();
        let before = present_assignments(vars, shorter);
        let all = present_assignments(vars, names);
        lemma_optional_lines(vars, shorter);
        assert forall|i: int| 0 <= i < all.len() implies is_line_of(vars, names, #[trigger] all[i]) by {
            if i < before.len() {
                assert(all[i] == before[i]);
                assert(is_line_of(vars, shorter, before[i]));
                let j = choose|j: int|
                    0 <= j < shorter.len() && vars.contains_key(#[trigger] shorter[j]) && before[i]
                        == assignment(shorter[j], vars[shorter[j]]);
                assert(names[j] == shorter[j]);
            } else {
                assert(vars.contains_key(names[names.len() - 1]));
            }
        }
        assert forall|j: int|
            0 <= j < names.len() && vars.contains_key(#[trigger] names[j]) implies all.contains(
            assignment(names[j], vars[names[j]]),
        ) by {
            let line = assignment(names[j], vars[names[j]]);
            if j < shorter.len() {
                assert(shorter[j] == names[j]);
                assert(before.contains(line));
                let i = choose|i: int| 0 <= i < before.len() && before[i] == line;
                assert(all[i] == line);
            } else {
                assert(all[all.len() - 1] == line);
            }
        }
        assert((forall|j: int| 0 <= j < names.len() ==> !vars.contains_key(#[trigger] names[j]))
            ==> all.len() == 0) by {
            if forall|j: int| 0 <= j < names.len() ==> !vars.contains_key(#[trigger] names[j]) {
                assert forall|j: int| 0 <= j < shorter.len() implies !vars.contains_key(
                    #[trigger] shorter[j],
                ) by {
                    assert(shorter[j] == names[j]);
                }
                assert(!vars.contains_key(names[names.len() - 1]));
            }
        }
    }
}

/// The wiring comes first and is always there: eleven lines whatever the
/// variables hold, and the database host among them is the one bound to
/// the kind.
pub proof fn lemma_wiring_is_always_present(vars: Map<Seq<char>, Seq<char>>, kind: ServiceType)
    ensures
        app_environment(vars, kind).len() >= 11,
        forall|i: int|
            0 <= i < 11 ==> #[trigger] app_environment(vars, kind)[i] == wired_environment(
                vars,
                kind,
            )[i],
        app_environment(vars, kind)[5] == assignment("MYSQL_HOST"@, kind.db_name()),
{
}

/// What a configuration sets reaches the application, and what it leaves
/// unset is wired with its default.
pub proof fn lemma_configured_values_reach_the_application(
    config: CommonConfigView,
    kind: ServiceType,
)
    ensures
        app_environment(common_env(config), kind)[1] == assignment(
            "APP_SECRET"@,
            match config.app_secret {
                Some(secret) => secret,
                None => "secret"@,
            },
        ),
        app_environment(common_env(config), kind)[2] == assignment(
            "APP_URL"@,
            match config.app_url {
                Some(url) => url,
                None => "http://localhost:3000"@,
            },
        ),
        app_environment(common_env(config), kind)[7] == assignment(
            "MYSQL_DB"@,
            match config.mysql_db {
                Some(db) => db,
                None => "poa"@,
            },
        ),
        app_environment(common_env(config), kind)[9] == assignment(
            "MYSQL_PASSWORD"@,
            match config.mysql_password {
                Some(password) => password,
                None => "root"@,
            },
        ),
        database_environment(common_env(config)) == seq![
            assignment(
                "MYSQL_ROOT_PASSWORD"@,
                match config.mysql_password {
                    Some(password) => password,
                    None => "root"@,
                },
            ),
            assignment(
                "MYSQL_DATABASE"@,
                match config.mysql_db {
                    Some(db) => db,
                    None => "poa"@,
                },
            ),
        ],
{
    lemma_common_env_by_field(config);
    lemma_wiring_is_always_present(common_env(config), kind);
}

/// Writes the line `name=value`.
fn assign(name: &str, value: &str) -> (line: String)
    ensures
        line@ == assignment(name@, value@),
{
    String::from_str(name).concat("=").concat(value)
}

/// Looks `key` up in `vars`, falling back to `default`.
fn lookup_or<'a>(vars: &'a EnvVars, key: &str, default: &'a str) -> (value: &'a str)
    ensures
        value@ == value_or(vars@, key@, default@),
{
    match vars.get(key) {
        Some(v) => v.as_str(),
        None => default,
    }
}

/// The name at position `index` of [`optional_names`].
fn optional_name(index: usize) -> (name: &'static str)
    requires
        index < 10,
    ensures
        name@ == optional_names()[index as int],
{
    if index == 0 {
        "ADMIN_WALLET"
    } else if index == 1 {
        "APILLON_KEY"
    } else if index == 2 {
        "APILLON_SECRET"
    } else if index == 3 {
        "COLLECTION_UUID"
    } else if index == 4 {
        "SMTP_HOST"
    } else if index == 5 {
        "SMTP_PORT"
    } else if index == 6 {
        "SMTP_USERNAME"
    } else if index == 7 {
        "SMTP_PASSWORD"
    } else if index == 8 {
        "SMTP_EMAIL_FROM"
    } else {
        "SMTP_NAME_FROM"
    }
}

/// The controller of one stack: the variables it was created with, the
/// kind of simplet it runs, and where its lifecycle stands. The connection
/// to the container engine belongs to the driver that performs the actions
/// which the controller asks for.
pub struct ApillonSimpletsDocker {
    env_vars: EnvVars,
    service_type: ServiceType,
    state: StackState,
}

impl ApillonSimpletsDocker {
    /// The variables that the stack was created with.
    pub closed spec fn vars(&self) -> Map<Seq<char>, Seq<char>> {
        self.env_vars@
    }

    /// The kind of simplet that the stack runs.
    pub closed spec fn kind(&self) -> ServiceType {
        self.service_type
    }

    /// Where the lifecycle of the stack stands.
    pub closed spec fn phase(&self) -> StackState {
        self.state
    }

    /// A controller for a stack of which no container exists yet.
    pub fn new(env_vars: EnvVars, service_type: ServiceType) -> (stack: Self)
        ensures
            stack.vars() == env_vars@,
            stack.kind() == service_type,
            stack.phase() == StackState::Created,
    {
        ApillonSimpletsDocker { env_vars, service_type, state: StackState::Created }
    }

    /// Where the lifecycle of the stack stands.
    pub fn state(&self) -> (state: StackState)
        ensures
            state == self.phase(),
    {
        self.state
    }

    /// Reports `event` to the controller, which moves on as the transition
    /// function says and answers with what is to be done next.
    pub fn handle(&mut self, event: StackEvent) -> (action: StackAction)
        ensures
            (final(self).phase(), action) == transition(old(self).phase(), event),
            final(self).vars() == old(self).vars(),
            final(self).kind() == old(self).kind(),
    {
        let (state, action) = step(self.state, event);
        self.state = state;
        action
    }

    /// Begins startup: the database container first, then the readiness
    /// poll, then the application container.
    pub fn start(&mut self) -> (action: StackAction)
        ensures
            (final(self).phase(), action) == transition(
                old(self).phase(),
                StackEvent::StartRequested,
            ),
            final(self).vars() == old(self).vars(),
            final(self).kind() == old(self).kind(),
    {
        self.handle(StackEvent::StartRequested)
    }

    /// Begins stopping both containers, the application first.
    pub fn stop(&mut self) -> (action: StackAction)
        ensures
            (final(self).phase(), action) == transition(
                old(self).phase(),
                StackEvent::StopRequested,
            ),
            final(self).vars() == old(self).vars(),
            final(self).kind() == old(self).kind(),
    {
        self.handle(StackEvent::StopRequested)
    }

    /// Begins removing both containers by force, the application first.
    pub fn cleanup(&mut self) -> (action: StackAction)
        ensures
            (final(self).phase(), action) == transition(
                old(self).phase(),
                StackEvent::CleanupRequested,
            ),
            final(self).vars() == old(self).vars(),
            final(self).kind() == old(self).kind(),
    {
        self.handle(StackEvent::CleanupRequested)
    }

    /// The kind of simplet that the stack runs.
    pub fn service_type(&self) -> (kind: ServiceType)
        ensures
            kind == self.kind(),
    {
        self.service_type
    }

    /// The variables that the stack was created with.
    pub fn env_vars(&self) -> (vars: &EnvVars)
        ensures
            vars@ == self.vars(),
    {
        &self.env_vars
    }

    /// What the container of `role` is created from.
    pub fn container(&self, role: ContainerRole) -> (spec: ContainerSpec)
        ensures
            spec@ == container_of(self.vars(), self.kind(), role),
    {
        let mut binds: Vec<String> = Vec::new();
        match role {
            ContainerRole::Database => {
                binds.push(String::from_str("./mysql-data:/var/lib/mysql"));
                assert(lines(binds@) =~= seq!["./mysql-data:/var/lib/mysql"@]);
                ContainerSpec {
                    image: String::from_str("mysql"),
                    env: self.build_db_environment(),
                    binds,
                }
            },
            ContainerRole::Application => {
                binds.push(String::from_str("./app-data:/app/data"));
                assert(lines(binds@) =~= seq!["./app-data:/app/data"@]);
                ContainerSpec {
                    image: String::from_str(self.service_type.get_app_image()),
                    env: self.build_app_environment(),
                    binds,
                }
            },
        }
    }

    /// The environment that the database container is created with.
    pub fn build_db_environment(&self) -> (db_env: Vec<String>)
        ensures
            lines(db_env@) == database_environment(self.vars()),
    {
        let mut db_env: Vec<String> = Vec::new();
        db_env.push(assign("MYSQL_ROOT_PASSWORD", lookup_or(&self.env_vars, "MYSQL_PASSWORD", "root")));
        db_env.push(assign("MYSQL_DATABASE", lookup_or(&self.env_vars, "MYSQL_DB", "poa")));
        assert(lines(db_env@) =~= database_environment(self.vars()));
        db_env
    }

    /// The environment that the application container is created with:
    /// the wiring that is always there, with defaults where the stack's
    /// variables set nothing, then each optional variable that they set.
    pub fn build_app_environment(&self) -> (app_env: Vec<String>)
        ensures
            lines(app_env@) == app_environment(self.vars(), self.kind()),
    {
        let vars = &self.env_vars;
        let mut app_env: Vec<String> = Vec::new();
        app_env.push(assign("APP_ENV", "production"));
        app_env.push(assign("APP_SECRET", lookup_or(vars, "APP_SECRET", "secret")));
        app_env.push(assign("APP_URL", lookup_or(vars, "APP_URL", "http://localhost:3000")));
        app_env.push(assign("API_PORT", "3000"));
        app_env.push(assign("API_HOST", "0.0.0.0"));
        app_env.push(assign("MYSQL_HOST", self.service_type.get_db_name()));
        app_env.push(assign("MYSQL_PORT", "3306"));
        app_env.push(assign("MYSQL_DB", lookup_or(vars, "MYSQL_DB", "poa")));
        app_env.push(assign("MYSQL_USER", "root"));
        app_env.push(assign("MYSQL_PASSWORD", lookup_or(vars, "MYSQL_PASSWORD", "root")));
        app_env.push(assign("MYSQL_POOL", "5"));
        assert(lines(app_env@) =~= wired_environment(self.vars(), self.kind()));
        assert(optional_names().take(0) =~= Seq::<Seq<char>>::empty());

        let mut index: usize = 0;
        while index < 10
            invariant
                index <= 10,
                vars@ == self.vars(),
                lines(app_env@) == wired_environment(self.vars(), self.kind())
                    + present_assignments(self.vars(), optional_names().take(index as int)),
            decreases 10 - index,
        {
            let name = optional_name(index);
            let ghost before = optional_names().take(index as int);
            let ghost upto = optional_names().take(index as int + 1);
            proof {
                assert(upto.drop_last() =~= before);
                assert(upto.last() == name@);
            }
            match vars.get(name) {
                Some(value) => {
                    let ghost earlier = app_env@;
                    app_env.push(assign(name, value.as_str()));
                    assert(lines(app_env@) =~= lines(earlier).push(assignment(name@, value@)));
                    assert(lines(app_env@) =~= wired_environment(self.vars(), self.kind())
                        + present_assignments(self.vars(), upto));
                },
                None => {},
            }
            index = index + 1;
        }
        assert(optional_names().take(10) =~= optional_names());
        app_env
    }
}

} // verus!
