use apillon_simplet_blueprint_template::simplets::env::EnvVars;
use apillon_simplet_blueprint_template::simplets::lifecycle::{
    step, ContainerRole, StackAction, StackError, StackEvent, StackState, MAX_ATTEMPTS,
    POLL_INTERVAL_SECS,
};
use apillon_simplet_blueprint_template::simplets::proof_of_attendance::ProofOfAttendanceBuilder;
use apillon_simplet_blueprint_template::simplets::stack::ApillonSimpletsDocker;
use apillon_simplet_blueprint_template::simplets::{ServiceType, SimpletsBuilder};

fn started() -> ApillonSimpletsDocker {
    let mut stack = ApillonSimpletsDocker::new(EnvVars::new(), ServiceType::ProofOfAttendance);
    assert_eq!(stack.state(), StackState::Created);
    assert_eq!(stack.start(), StackAction::Create(ContainerRole::Database));
    assert_eq!(stack.handle(StackEvent::Succeeded), StackAction::Start(ContainerRole::Database));
    assert_eq!(stack.handle(StackEvent::Succeeded), StackAction::Sleep { seconds: 2 });
    assert_eq!(stack.state(), StackState::Waiting { attempts: 0 });
    stack
}

fn ready() -> ApillonSimpletsDocker {
    let mut stack = started();
    assert_eq!(stack.handle(StackEvent::Elapsed), StackAction::Inspect);
    assert_eq!(stack.handle(StackEvent::Running), StackAction::Create(ContainerRole::Application));
    assert_eq!(
        stack.handle(StackEvent::Succeeded),
        StackAction::Start(ContainerRole::Application)
    );
    assert_eq!(stack.handle(StackEvent::Succeeded), StackAction::Succeed);
    assert_eq!(stack.state(), StackState::Ready);
    stack
}

#[test]
fn service_types_are_bound_to_fixed_names() {
    assert_eq!(ServiceType::ProofOfAttendance.get_db_name(), "poa_db");
    assert_eq!(ServiceType::EmailAirdrop.get_db_name(), "airdrop_db");
    assert_eq!(ServiceType::ProofOfAttendance.get_app_image(), "ps-poa:latest");
    assert_eq!(ServiceType::EmailAirdrop.get_app_image(), "ps-email-airdrop:latest");
    assert_eq!(ServiceType::ProofOfAttendance.get_service_name(), "proof_of_attendance");
    assert_eq!(ServiceType::EmailAirdrop.get_service_name(), "email_airdrop");
}

#[test]
fn application_environment_of_a_deployment() {
    let (stack, _) =
        ProofOfAttendanceBuilder::new().mysql_db("poa_test").app_secret("s1").deploy();
    let app_env = stack.build_app_environment();
    assert_eq!(
        app_env,
        vec![
            "APP_ENV=production",
            "APP_SECRET=s1",
            "APP_URL=http://localhost:3000",
            "API_PORT=3000",
            "API_HOST=0.0.0.0",
            "MYSQL_HOST=poa_db",
            "MYSQL_PORT=3306",
            "MYSQL_DB=poa_test",
            "MYSQL_USER=root",
            "MYSQL_PASSWORD=root",
            "MYSQL_POOL=5",
        ]
    );
    assert!(app_env.contains(&"MYSQL_DB=poa_test".to_string()));
    assert!(app_env.contains(&"APP_SECRET=s1".to_string()));
    assert!(app_env.iter().all(|line| !line.starts_with("SMTP_HOST")));
    assert!(app_env.contains(&"MYSQL_HOST=poa_db".to_string()));
}

#[test]
fn application_environment_defaults() {
    let stack = ApillonSimpletsDocker::new(EnvVars::new(), ServiceType::EmailAirdrop);
    assert_eq!(
        stack.build_app_environment(),
        vec![
            "APP_ENV=production",
            "APP_SECRET=secret",
            "APP_URL=http://localhost:3000",
            "API_PORT=3000",
            "API_HOST=0.0.0.0",
            "MYSQL_HOST=airdrop_db",
            "MYSQL_PORT=3306",
            "MYSQL_DB=poa",
            "MYSQL_USER=root",
            "MYSQL_PASSWORD=root",
            "MYSQL_POOL=5",
        ]
    );
    assert_eq!(
        stack.build_db_environment(),
        vec!["MYSQL_ROOT_PASSWORD=root", "MYSQL_DATABASE=poa"]
    );
}

#[test]
fn optional_variables_follow_in_fixed_order() {
    let mut env = EnvVars::new();
    env.insert("SMTP_NAME_FROM".to_string(), "n".to_string());
    env.insert("SMTP_HOST".to_string(), "h".to_string());
    env.insert("COLLECTION_UUID".to_string(), "c".to_string());
    env.insert("APILLON_SECRET".to_string(), "as".to_string());
    env.insert("APILLON_KEY".to_string(), "ak".to_string());
    env.insert("ADMIN_WALLET".to_string(), "w".to_string());
    env.insert("SMTP_EMAIL_FROM".to_string(), "e".to_string());
    env.insert("SMTP_PASSWORD".to_string(), "p".to_string());
    env.insert("SMTP_USERNAME".to_string(), "u".to_string());
    env.insert("SMTP_PORT".to_string(), "25".to_string());
    env.insert("MYSQL_HOST".to_string(), "elsewhere".to_string());
    env.insert("MYSQL_PASSWORD".to_string(), "pw".to_string());
    env.insert("UNRELATED".to_string(), "x".to_string());
    let stack = ApillonSimpletsDocker::new(env, ServiceType::EmailAirdrop);
    let app_env = stack.build_app_environment();
    assert_eq!(app_env.len(), 21);
    assert_eq!(app_env[5], "MYSQL_HOST=airdrop_db");
    assert_eq!(app_env[9], "MYSQL_PASSWORD=pw");
    assert_eq!(
        app_env[11..].to_vec(),
        vec![
            "ADMIN_WALLET=w",
            "APILLON_KEY=ak",
            "APILLON_SECRET=as",
            "COLLECTION_UUID=c",
            "SMTP_HOST=h",
            "SMTP_PORT=25",
            "SMTP_USERNAME=u",
            "SMTP_PASSWORD=p",
            "SMTP_EMAIL_FROM=e",
            "SMTP_NAME_FROM=n",
        ]
    );
    assert_eq!(
        stack.build_db_environment(),
        vec!["MYSQL_ROOT_PASSWORD=pw", "MYSQL_DATABASE=poa"]
    );
}

#[test]
fn environment_insert_overwrites() {
    let mut env = EnvVars::new();
    assert!(env.is_empty());
    env.insert("A".to_string(), "1".to_string());
    env.insert("A".to_string(), "2".to_string());
    assert_eq!(env.len(), 1);
    assert!(!env.is_empty());
    assert!(env.contains_key("A"));
    assert_eq!(env.get("A").map(|v| v.as_str()), Some("2"));
    assert!(env.get("B").is_none());
}

#[test]
fn startup_reaches_ready_in_order() {
    let stack = ready();
    assert_eq!(stack.service_type(), ServiceType::ProofOfAttendance);
}

#[test]
fn database_that_never_runs_times_out() {
    let mut stack = started();
    let mut pauses: u64 = 1;
    let mut checks: u32 = 0;
    let mut last = StackAction::Nothing;
    while checks < 1000 {
        assert_eq!(stack.handle(StackEvent::Elapsed), StackAction::Inspect);
        checks += 1;
        last = stack.handle(StackEvent::NotRunning);
        assert_ne!(last, StackAction::Create(ContainerRole::Application));
        match last {
            StackAction::Sleep { seconds } => {
                assert_eq!(seconds, POLL_INTERVAL_SECS);
                assert_eq!(stack.state(), StackState::Waiting { attempts: checks });
                pauses += 1;
            }
            _ => break,
        }
    }
    assert_eq!(MAX_ATTEMPTS, 30);
    assert_eq!(POLL_INTERVAL_SECS, 2);
    assert_eq!(checks, 30);
    assert_eq!(pauses, 30);
    assert_eq!(last, StackAction::Fail(StackError::ReadinessTimeout));
    assert_eq!(stack.state(), StackState::Failed { error: StackError::ReadinessTimeout });
    assert_eq!(stack.handle(StackEvent::Elapsed), StackAction::Nothing);
    assert_eq!(stack.handle(StackEvent::Running), StackAction::Nothing);
    assert_eq!(stack.state(), StackState::Failed { error: StackError::ReadinessTimeout });
}

#[test]
fn failed_inspection_consumes_an_attempt() {
    let mut stack = started();
    assert_eq!(stack.handle(StackEvent::Elapsed), StackAction::Inspect);
    assert_eq!(stack.handle(StackEvent::EngineFailed), StackAction::Sleep { seconds: 2 });
    assert_eq!(stack.state(), StackState::Waiting { attempts: 1 });
    assert_eq!(stack.handle(StackEvent::Elapsed), StackAction::Inspect);
    assert_eq!(stack.handle(StackEvent::Running), StackAction::Create(ContainerRole::Application));
}

#[test]
fn last_attempt_can_still_succeed() {
    assert_eq!(
        step(StackState::Checking { attempts: 29 }, StackEvent::Running),
        (StackState::CreatingApplication, StackAction::Create(ContainerRole::Application))
    );
    assert_eq!(
        step(StackState::Checking { attempts: 28 }, StackEvent::NotRunning),
        (StackState::Waiting { attempts: 29 }, StackAction::Sleep { seconds: 2 })
    );
    assert_eq!(
        step(StackState::Checking { attempts: 29 }, StackEvent::NotRunning),
        (
            StackState::Failed { error: StackError::ReadinessTimeout },
            StackAction::Fail(StackError::ReadinessTimeout)
        )
    );
    assert_eq!(
        step(StackState::Checking { attempts: u32::MAX }, StackEvent::NotRunning),
        (
            StackState::Failed { error: StackError::ReadinessTimeout },
            StackAction::Fail(StackError::ReadinessTimeout)
        )
    );
}

#[test]
fn engine_error_fails_the_stack() {
    let mut stack = ApillonSimpletsDocker::new(EnvVars::new(), ServiceType::EmailAirdrop);
    stack.start();
    assert_eq!(stack.handle(StackEvent::EngineFailed), StackAction::Fail(StackError::Engine));
    assert_eq!(stack.state(), StackState::Failed { error: StackError::Engine });

    let mut stack = started();
    stack.handle(StackEvent::Elapsed);
    stack.handle(StackEvent::Running);
    assert_eq!(stack.handle(StackEvent::EngineFailed), StackAction::Fail(StackError::Engine));
    assert_eq!(stack.state(), StackState::Failed { error: StackError::Engine });
}

#[test]
fn stop_halts_at_the_first_error() {
    let mut stack = ready();
    assert_eq!(stack.stop(), StackAction::Stop(ContainerRole::Application));
    assert_eq!(stack.handle(StackEvent::EngineFailed), StackAction::Fail(StackError::Engine));
    assert_eq!(stack.state(), StackState::Failed { error: StackError::Engine });

    let mut stack = ready();
    assert_eq!(stack.stop(), StackAction::Stop(ContainerRole::Application));
    assert_eq!(stack.handle(StackEvent::Succeeded), StackAction::Stop(ContainerRole::Database));
    assert_eq!(stack.handle(StackEvent::Succeeded), StackAction::Succeed);
    assert_eq!(stack.state(), StackState::Stopped);
    assert_eq!(stack.stop(), StackAction::Nothing);
    assert_eq!(stack.cleanup(), StackAction::Nothing);
    assert_eq!(stack.state(), StackState::Stopped);
}

#[test]
fn failed_stack_can_be_stopped_and_removed() {
    let mut stack = started();
    stack.handle(StackEvent::Elapsed);
    for _ in 0..29 {
        stack.handle(StackEvent::NotRunning);
        stack.handle(StackEvent::Elapsed);
    }
    assert_eq!(
        stack.handle(StackEvent::NotRunning),
        StackAction::Fail(StackError::ReadinessTimeout)
    );
    assert_eq!(stack.stop(), StackAction::Stop(ContainerRole::Application));
    assert_eq!(stack.handle(StackEvent::EngineFailed), StackAction::Fail(StackError::Engine));
    assert_eq!(stack.cleanup(), StackAction::Remove(ContainerRole::Application));
    assert_eq!(stack.handle(StackEvent::Succeeded), StackAction::Remove(ContainerRole::Database));
    assert_eq!(stack.handle(StackEvent::Succeeded), StackAction::Succeed);
    assert_eq!(stack.state(), StackState::Removed);
    assert_eq!(stack.cleanup(), StackAction::Nothing);
}

#[test]
fn cleanup_removes_both_containers() {
    let mut stack = ready();
    assert_eq!(stack.cleanup(), StackAction::Remove(ContainerRole::Application));
    assert_eq!(stack.handle(StackEvent::Succeeded), StackAction::Remove(ContainerRole::Database));
    assert_eq!(stack.handle(StackEvent::Succeeded), StackAction::Succeed);
    assert_eq!(stack.state(), StackState::Removed);

    let mut stack = ready();
    stack.cleanup();
    assert_eq!(stack.handle(StackEvent::EngineFailed), StackAction::Fail(StackError::Engine));
    assert_eq!(stack.state(), StackState::Failed { error: StackError::Engine });
    assert_eq!(stack.cleanup(), StackAction::Remove(ContainerRole::Application));
}

#[test]
fn events_out_of_place_change_nothing() {
    let mut stack = ApillonSimpletsDocker::new(EnvVars::new(), ServiceType::EmailAirdrop);
    assert_eq!(stack.stop(), StackAction::Nothing);
    assert_eq!(stack.cleanup(), StackAction::Nothing);
    assert_eq!(stack.handle(StackEvent::Succeeded), StackAction::Nothing);
    assert_eq!(stack.handle(StackEvent::Running), StackAction::Nothing);
    assert_eq!(stack.handle(StackEvent::EngineFailed), StackAction::Nothing);
    assert_eq!(stack.state(), StackState::Created);
    let mut stack = ready();
    assert_eq!(stack.start(), StackAction::Nothing);
    assert_eq!(stack.state(), StackState::Ready);
}

#[test]
fn containers_are_created_from_fixed_images_and_mounts() {
    let (stack, _) = ProofOfAttendanceBuilder::new().mysql_password("pw").deploy();
    let database = stack.container(ContainerRole::Database);
    assert_eq!(database.image, "mysql");
    assert_eq!(database.env, vec!["MYSQL_ROOT_PASSWORD=pw", "MYSQL_DATABASE=poa"]);
    assert_eq!(database.binds, vec!["./mysql-data:/var/lib/mysql"]);
    let application = stack.container(ContainerRole::Application);
    assert_eq!(application.image, "ps-poa:latest");
    assert_eq!(application.env, stack.build_app_environment());
    assert_eq!(application.binds, vec!["./app-data:/app/data"]);
    let airdrop = ApillonSimpletsDocker::new(EnvVars::new(), ServiceType::EmailAirdrop);
    assert_eq!(airdrop.container(ContainerRole::Application).image, "ps-email-airdrop:latest");
}

#[test]
fn timeout_is_reported_in_fixed_words() {
    assert_eq!(
        apillon_simplet_blueprint_template::simplets::lifecycle::READINESS_TIMEOUT_MESSAGE,
        "MySQL failed to become healthy"
    );
}
