use vstd::prelude::*;

verus! {

/// A backend language offered by the scaffolder.
#[derive(Clone, Copy, Debug, PartialEq, Eq, Structural)]
pub enum Language {
    Rust,
    Go,
}

/// A backend framework offered by the scaffolder.
#[derive(Clone, Copy, Debug, PartialEq, Eq, Structural)]
pub enum BackendFramework {
    Axum,
    Fiber,
    Chi,
    GoInertia,
}

/// A frontend framework offered by the scaffolder.
#[derive(Clone, Copy, Debug, PartialEq, Eq, Structural)]
pub enum FrontendFramework {
    Svelte,
}

/// A database offered by the scaffolder.
#[derive(Clone, Copy, Debug, PartialEq, Eq, Structural)]
pub enum Database {
    Sqlite,
    Postgresql,
    Mysql,
}

impl Language {
    /// The display and menu text of this language.
    pub open spec fn spec_token(self) -> Seq<char> {
        match self {
            Language::Rust => "rust"@,
            Language::Go => "go"@,
        }
    }

    pub fn token(self) -> (s: String)
        ensures
            s@ == self.spec_token(),
    {
        match self {
            Language::Rust => "rust".to_owned(),
            Language::Go => "go".to_owned(),
        }
    }
}

impl BackendFramework {
    /// The display and menu text of this framework.
    pub open spec fn spec_token(self) -> Seq<char> {
        match self {
            BackendFramework::Axum => "axum"@,
            BackendFramework::Fiber => "fiber"@,
            BackendFramework::Chi => "chi"@,
            BackendFramework::GoInertia => "go inertia"@,
        }
    }

    pub fn token(self) -> (s: String)
        ensures
            s@ == self.spec_token(),
    {
        match self {
            BackendFramework::Axum => "axum".to_owned(),
            BackendFramework::Fiber => "fiber".to_owned(),
            BackendFramework::Chi => "chi".to_owned(),
            BackendFramework::GoInertia => "go inertia".to_owned(),
        }
    }
}

impl FrontendFramework {
    /// The display and menu text of this framework.
    pub open spec fn spec_token(self) -> Seq<char> {
        match self {
            FrontendFramework::Svelte => "svelte"@,
        }
    }

    pub fn token(self) -> (s: String)
        ensures
            s@ == self.spec_token(),
    {
        match self {
            FrontendFramework::Svelte => "svelte".to_owned(),
        }
    }
}

impl Database {
    /// The display and menu text of this database.
    pub open spec fn spec_token(self) -> Seq<char> {
        match self {
            Database::Sqlite => "sqlite"@,
            Database::Postgresql => "postgresql"@,
            Database::Mysql => "mysql"@,
        }
    }

    pub fn token(self) -> (s: String)
        ensures
            s@ == self.spec_token(),
    {
        match self {
            Database::Sqlite => "sqlite".to_owned(),
            Database::Postgresql => "postgresql".to_owned(),
            Database::Mysql => "mysql".to_owned(),
        }
    }
}

/// The four answers collected from the user, in the order they are asked.
/// Two keys are the same exactly when all four components agree; the key has
/// no identity beyond that.
#[derive(Clone, Copy, Debug, PartialEq, Eq, Structural)]
pub struct ConfigurationKey {
    pub language: Language,
    pub backend: BackendFramework,
    pub frontend: FrontendFramework,
    pub database: Database,
}

impl ConfigurationKey {
    pub fn new(
        language: Language,
        backend: BackendFramework,
        frontend: FrontendFramework,
        database: Database,
    ) -> (k: ConfigurationKey)
        ensures
            k == (ConfigurationKey { language, backend, frontend, database }),
    {
        ConfigurationKey { language, backend, frontend, database }
    }
}

} // verus!
