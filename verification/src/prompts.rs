use vstd::prelude::*;

use crate::config::{BackendFramework, Database, FrontendFramework, Language};

verus! {

/// The backend languages, in the order the first prompt offers them.
pub open spec fn language_choices() -> Seq<Language> {
    seq![Language::Rust, Language::Go]
}

/// The backend frameworks offered for a language, in prompt order. This is
/// the one prompt whose options depend on an earlier answer.
pub open spec fn backend_choices(language: Language) -> Seq<BackendFramework> {
    match language {
        Language::Rust => seq![BackendFramework::Axum],
        Language::Go => seq![
            BackendFramework::Fiber,
            BackendFramework::Chi,
            BackendFramework::GoInertia,
        ],
    }
}

/// The frontend frameworks, in the order the third prompt offers them.
pub open spec fn frontend_choices() -> Seq<FrontendFramework> {
    seq![FrontendFramework::Svelte]
}

/// The databases, in the order the fourth prompt offers them.
pub open spec fn database_choices() -> Seq<Database> {
    seq![Database::Sqlite, Database::Postgresql, Database::Mysql]
}

/// The menu texts of the language prompt, one per choice, in order.
pub fn language_options() -> (options: Vec<String>)
    ensures
        options@.len() == language_choices().len(),
        forall|i: int| 0 <= i < options@.len()
            ==> options@[i]@ == language_choices()[i].spec_token(),
{
    let mut options: Vec<String> = Vec::new();
    options.push(Language::Rust.token());
    options.push(Language::Go.token());
    options
}

/// The language behind a zero-based menu selection; out-of-range selections
/// name no language.
pub fn language_from_choice(choice: usize) -> (r: Option<Language>)
    ensures
        r == (if choice < language_choices().len() {
            Some(language_choices()[choice as int])
        } else {
            None::<Language>
        }),
{
    if choice == 0 {
        Some(Language::Rust)
    } else if choice == 1 {
        Some(Language::Go)
    } else {
        None
    }
}

/// The menu texts of the backend-framework prompt for a language.
pub fn backend_options(language: Language) -> (options: Vec<String>)
    ensures
        options@.len() == backend_choices(language).len(),
        forall|i: int| 0 <= i < options@.len()
            ==> options@[i]@ == backend_choices(language)[i].spec_token(),
{
    let mut options: Vec<String> = Vec::new();
    match language {
        Language::Rust => {
            options.push(BackendFramework::Axum.token());
        },
        Language::Go => {
            options.push(BackendFramework::Fiber.token());
            options.push(BackendFramework::Chi.token());
            options.push(BackendFramework::GoInertia.token());
        },
    }
    options
}

/// The backend framework behind a zero-based menu selection for a language.
pub fn backend_from_choice(language: Language, choice: usize) -> (r: Option<BackendFramework>)
    ensures
        r == (if choice < backend_choices(language).len() {
            Some(backend_choices(language)[choice as int])
        } else {
            None::<BackendFramework>
        }),
{
    match language {
        Language::Rust => {
            if choice == 0 {
                Some(BackendFramework::Axum)
            } else {
                None
            }
        },
        Language::Go => {
            if choice == 0 {
                Some(BackendFramework::Fiber)
            } else if choice == 1 {
                Some(BackendFramework::Chi)
            } else if choice == 2 {
                Some(BackendFramework::GoInertia)
            } else {
                None
            }
        },
    }
}

/// The menu texts of the frontend-framework prompt.
pub fn frontend_options() -> (options: Vec<String>)
    ensures
        options@.len() == frontend_choices().len(),
        forall|i: int| 0 <= i < options@.len()
            ==> options@[i]@ == frontend_choices()[i].spec_token(),
{
    let mut options: Vec<String> = Vec::new();
    options.push(FrontendFramework::Svelte.token());
    options
}

/// The frontend framework behind a zero-based menu selection.
pub fn frontend_from_choice(choice: usize) -> (r: Option<FrontendFramework>)
    ensures
        r == (if choice < frontend_choices().len() {
            Some(frontend_choices()[choice as int])
        } else {
            None::<FrontendFramework>
        }),
{
    if choice == 0 {
        Some(FrontendFramework::Svelte)
    } else {
        None
    }
}

/// The menu texts of the database prompt.
pub fn database_options() -> (options: Vec<String>)
    ensures
        options@.len() == database_choices().len(),
        forall|i: int| 0 <= i < options@.len()
            ==> options@[i]@ == database_choices()[i].spec_token(),
{
    let mut options: Vec<String> = Vec::new();
    options.push(Database::Sqlite.token());
    options.push(Database::Postgresql.token());
    options.push(Database::Mysql.token());
    options
}

/// The database behind a zero-based menu selection.
pub fn database_from_choice(choice: usize) -> (r: Option<Database>)
    ensures
        r == (if choice < database_choices().len() {
            Some(database_choices()[choice as int])
        } else {
            None::<Database>
        }),
{
    if choice == 0 {
        Some(Database::Sqlite)
    } else if choice == 1 {
        Some(Database::Postgresql)
    } else if choice == 2 {
        Some(Database::Mysql)
    } else {
        None
    }
}

} // verus!
