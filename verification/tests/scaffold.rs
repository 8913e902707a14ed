use ufo::cli::cli_project_name;
use ufo::config::{BackendFramework, ConfigurationKey, Database, FrontendFramework, Language};
use ufo::errors::ScaffoldError;
use ufo::materialize::{progress_messages, success_message, Session, SessionStatus};
use ufo::prompts::{
    backend_from_choice, backend_options, database_from_choice, database_options,
    frontend_from_choice, frontend_options, language_from_choice, language_options,
};
use ufo::registry::{default_registry, TemplateRegistry};

const RUST_AXUM_URL: &str = "git@github.com:fuji-184/Rust-Svelte5-SSG-Embeded-Template.git";
const GO_FIBER_URL: &str = "git@github.com:fuji-184/GoFiber-Svelte5-SSG-Embedded-Template.git";
const GO_INERTIA_URL: &str =
    "git@github.com:fuji-184/Go-Inertia-Svelte-Sqlite-SPA-SSR-Template.git";
const GO_CHI_URL: &str = "git@github.com:fuji-184/GoChi-Svelte5-Embedded-Template.git";

fn key(
    language: Language,
    backend: BackendFramework,
    frontend: FrontendFramework,
    database: Database,
) -> ConfigurationKey {
    ConfigurationKey::new(language, backend, frontend, database)
}

#[test]
fn known_keys_resolve_to_distinct_addresses() {
    let registry = default_registry();
    let keys = [
        key(
            Language::Rust,
            BackendFramework::Axum,
            FrontendFramework::Svelte,
            Database::Sqlite,
        ),
        key(
            Language::Go,
            BackendFramework::Fiber,
            FrontendFramework::Svelte,
            Database::Sqlite,
        ),
        key(
            Language::Go,
            BackendFramework::GoInertia,
            FrontendFramework::Svelte,
            Database::Sqlite,
        ),
        key(
            Language::Go,
            BackendFramework::Chi,
            FrontendFramework::Svelte,
            Database::Sqlite,
        ),
    ];
    let mut addresses: Vec<String> = Vec::new();
    for k in keys.iter() {
        let address = registry.resolve(k).expect("known key must resolve");
        addresses.push(address);
    }
    assert_eq!(addresses[0], RUST_AXUM_URL);
    assert_eq!(addresses[1], GO_FIBER_URL);
    assert_eq!(addresses[2], GO_INERTIA_URL);
    assert_eq!(addresses[3], GO_CHI_URL);
    for i in 0..addresses.len() {
        for j in 0..addresses.len() {
            if i != j {
                assert_ne!(addresses[i], addresses[j]);
            }
        }
    }
}

#[test]
fn unknown_combination_fails_resolution_and_session() {
    let registry = default_registry();
    let missing = key(
        Language::Go,
        BackendFramework::Chi,
        FrontendFramework::Svelte,
        Database::Postgresql,
    );
    assert_eq!(
        registry.resolve(&missing),
        Err(ScaffoldError::UnknownCombination)
    );
    let session = Session::new(&registry, &missing, "site".to_string(), false);
    assert!(matches!(session, Err(ScaffoldError::UnknownCombination)));
}

#[test]
fn blank_project_name_never_reaches_the_clone_step() {
    let registry = default_registry();
    let known = key(
        Language::Rust,
        BackendFramework::Axum,
        FrontendFramework::Svelte,
        Database::Sqlite,
    );
    for name in [
        "",
        " ",
        "   ",
        " \t\r\n ",
        "\t",
        "\u{0B}",
        "\u{0C}",
        "\u{85}",
        "\u{A0}",
        "\u{1680}",
        "\u{2003}",
        "\u{2028}\u{2029}",
        "\u{202F}\u{205F}\u{3000}",
    ] {
        assert!(
            name.trim().is_empty(),
            "every case here must be whitespace-only"
        );
        let session = Session::new(&registry, &known, name.to_string(), false);
        assert!(matches!(session, Err(ScaffoldError::BadArguments)));
    }
    let almost_blank = Session::new(&registry, &known, " \u{0C} x ".to_string(), false);
    assert!(almost_blank.is_ok());
}

#[test]
fn scenario_create_myapp_rust_axum_svelte_sqlite() {
    let name = cli_project_name(true, Some("myapp".to_string())).expect("create myapp is valid");
    assert_eq!(name, "myapp");

    let language = language_from_choice(0).expect("first language");
    assert_eq!(language, Language::Rust);
    let backend = backend_from_choice(language, 0).expect("first rust framework");
    assert_eq!(backend, BackendFramework::Axum);
    let frontend = frontend_from_choice(0).expect("first frontend");
    assert_eq!(frontend, FrontendFramework::Svelte);
    let database = database_from_choice(0).expect("first database");
    assert_eq!(database, Database::Sqlite);

    let registry = default_registry();
    let chosen = key(language, backend, frontend, database);
    let session =
        Session::new(&registry, &chosen, name, false).expect("the rust template exists");
    let clone = session.current_command().expect("a running session clones");
    assert_eq!(clone.program, "git");
    assert_eq!(clone.args, vec!["clone", RUST_AXUM_URL, "myapp"]);
    assert!(clone.working_dir.is_empty());
}

#[test]
fn scenario_create_site_go_chi_postgresql_fails() {
    let name = cli_project_name(true, Some("site".to_string())).expect("create site is valid");

    let language = language_from_choice(1).expect("second language");
    assert_eq!(language, Language::Go);
    let backend = backend_from_choice(language, 1).expect("second go framework");
    assert_eq!(backend, BackendFramework::Chi);
    let frontend = frontend_from_choice(0).expect("first frontend");
    let database = database_from_choice(1).expect("second database");
    assert_eq!(database, Database::Postgresql);

    let registry = default_registry();
    let chosen = key(language, backend, frontend, database);
    let session = Session::new(&registry, &chosen, name, false);
    assert!(matches!(session, Err(ScaffoldError::UnknownCombination)));
}

#[test]
fn existing_target_directory_fails_the_second_create() {
    let registry = default_registry();
    let known = key(
        Language::Rust,
        BackendFramework::Axum,
        FrontendFramework::Svelte,
        Database::Sqlite,
    );
    let first = Session::new(&registry, &known, "myapp".to_string(), false);
    assert!(first.is_ok());
    let second = Session::new(&registry, &known, "myapp".to_string(), true);
    assert!(matches!(second, Err(ScaffoldError::DirectoryCollision)));
}

#[test]
fn one_progress_message_per_clone_output_line() {
    assert_eq!(progress_messages(0).len(), 0);
    let messages = progress_messages(5);
    assert_eq!(messages.len(), 5);
    for message in messages.iter() {
        assert_eq!(message, "The project is being created....");
    }
}

#[test]
fn session_walks_the_four_steps_in_order() {
    let registry = default_registry();
    let known = key(
        Language::Go,
        BackendFramework::Fiber,
        FrontendFramework::Svelte,
        Database::Sqlite,
    );
    let mut session =
        Session::new(&registry, &known, "shop".to_string(), false).expect("fiber template exists");

    let clone = session.current_command().expect("step one");
    assert_eq!(clone.program, "git");
    assert_eq!(clone.args, vec!["clone", GO_FIBER_URL, "shop"]);
    assert!(clone.working_dir.is_empty());
    session.record_exit(true);

    let strip = session.current_command().expect("step two");
    assert_eq!(strip.program, "rm");
    assert_eq!(strip.args, vec!["-rf", ".git"]);
    assert_eq!(strip.working_dir, vec!["shop"]);
    session.record_exit(true);

    let install = session.current_command().expect("step three");
    assert_eq!(install.program, "npm");
    assert_eq!(install.args, vec!["install"]);
    assert_eq!(install.working_dir, vec!["shop", "frontend"]);
    session.record_exit(true);

    let build = session.current_command().expect("step four");
    assert_eq!(build.program, "npm");
    assert_eq!(build.args, vec!["run", "build"]);
    assert_eq!(build.working_dir, vec!["shop", "frontend"]);
    session.record_exit(true);

    assert_eq!(session.status(), SessionStatus::Succeeded);
    assert!(session.current_command().is_none());
    assert!(!session.needs_rollback());
    assert!(session.error().is_none());
    assert!(success_message().starts_with("Project is created successfully!"));
}

#[test]
fn clone_failure_stops_the_session_and_asks_for_rollback() {
    let registry = default_registry();
    let known = key(
        Language::Rust,
        BackendFramework::Axum,
        FrontendFramework::Svelte,
        Database::Sqlite,
    );
    let mut session =
        Session::new(&registry, &known, "myapp".to_string(), false).expect("template exists");
    session.record_exit(false);
    assert_eq!(session.status(), SessionStatus::Failed);
    assert_eq!(session.error(), Some(ScaffoldError::CloneFailed));
    assert!(session.needs_rollback());
    assert!(session.current_command().is_none());
}

#[test]
fn post_clone_failure_is_reported_and_gates_later_steps() {
    let registry = default_registry();
    let known = key(
        Language::Go,
        BackendFramework::GoInertia,
        FrontendFramework::Svelte,
        Database::Sqlite,
    );
    let mut session =
        Session::new(&registry, &known, "blog".to_string(), false).expect("template exists");
    session.record_exit(true);
    session.record_exit(false);
    assert_eq!(session.status(), SessionStatus::Failed);
    assert_eq!(session.error(), Some(ScaffoldError::PostProcessFailed));
    assert!(session.needs_rollback());
    assert!(session.current_command().is_none());
}

#[test]
fn exit_codes_are_nonzero_and_distinct() {
    let errors = [
        ScaffoldError::BadArguments,
        ScaffoldError::PromptFailed,
        ScaffoldError::UnknownCombination,
        ScaffoldError::DirectoryCollision,
        ScaffoldError::CloneFailed,
        ScaffoldError::PostProcessFailed,
    ];
    for e in errors.iter() {
        assert_ne!(e.exit_code(), 0);
        assert!(!e.message().is_empty());
    }
    for i in 0..errors.len() {
        for j in 0..errors.len() {
            if i != j {
                assert_ne!(errors[i].exit_code(), errors[j].exit_code());
            }
        }
    }
    assert_eq!(
        ScaffoldError::UnknownCombination.message(),
        "unknown combination"
    );
    assert_eq!(ScaffoldError::BadArguments.message(), "Failed to read command");
}

#[test]
fn cli_requires_the_create_subcommand_and_a_name() {
    assert_eq!(cli_project_name(false, None), Err(ScaffoldError::BadArguments));
    assert_eq!(
        cli_project_name(false, Some("myapp".to_string())),
        Err(ScaffoldError::BadArguments)
    );
    assert_eq!(cli_project_name(true, None), Err(ScaffoldError::BadArguments));
    assert_eq!(
        cli_project_name(true, Some(String::new())),
        Err(ScaffoldError::BadArguments)
    );
    assert_eq!(
        cli_project_name(true, Some("myapp".to_string())),
        Ok("myapp".to_string())
    );
}

#[test]
fn prompt_options_follow_the_menus() {
    assert_eq!(language_options(), vec!["rust", "go"]);
    assert_eq!(backend_options(Language::Rust), vec!["axum"]);
    assert_eq!(
        backend_options(Language::Go),
        vec!["fiber", "chi", "go inertia"]
    );
    assert_eq!(frontend_options(), vec!["svelte"]);
    assert_eq!(database_options(), vec!["sqlite", "postgresql", "mysql"]);

    assert_eq!(language_from_choice(2), None);
    assert_eq!(backend_from_choice(Language::Rust, 1), None);
    assert_eq!(backend_from_choice(Language::Go, 3), None);
    assert_eq!(frontend_from_choice(1), None);
    assert_eq!(database_from_choice(3), None);
}

#[test]
fn registry_keeps_one_address_per_key() {
    let mut registry = TemplateRegistry::new();
    let k = key(
        Language::Rust,
        BackendFramework::Axum,
        FrontendFramework::Svelte,
        Database::Sqlite,
    );
    assert!(!registry.contains_key(&k));
    assert!(registry.add(k, "first-address".to_string()));
    assert!(registry.contains_key(&k));
    assert!(!registry.add(k, "second-address".to_string()));
    assert_eq!(registry.resolve(&k), Ok("first-address".to_string()));
}
