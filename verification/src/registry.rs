use vstd::prelude::*;

use crate::config::{BackendFramework, ConfigurationKey, Database, FrontendFramework, Language};
use crate::errors::ScaffoldError;

verus! {

/// The mathematical contents of a row list: later rows would win, but the
/// registry keeps its keys unique, so each key has exactly one address.
pub closed spec fn map_of(rows: Seq<(ConfigurationKey, String)>) -> Map<ConfigurationKey, Seq<char>>
    decreases rows.len(),
{
    if rows.len() == 0 {
        Map::empty()
    } else {
        map_of(rows.drop_last()).insert(rows.last().0, rows.last().1@)
    }
}

/// No two rows share a key.
pub open spec fn unique_keys(rows: Seq<(ConfigurationKey, String)>) -> bool {
    forall|i: int, j: int| 0 <= i < j < rows.len() ==> rows[i].0 != rows[j].0
}

proof fn lemma_map_of_absent(rows: Seq<(ConfigurationKey, String)>, key: ConfigurationKey)
    requires
        forall|i: int| 0 <= i < rows.len() ==> rows[i].0 != key,
    ensures
        !map_of(rows).contains_key(key),
    decreases rows.len(),
{
    if rows.len() > 0 {
        lemma_map_of_absent(rows.drop_last(), key);
    }
}

proof fn lemma_map_of_present(rows: Seq<(ConfigurationKey, String)>, i: int)
    requires
        0 <= i < rows.len(),
        unique_keys(rows),
    ensures
        map_of(rows).contains_key(rows[i].0),
        map_of(rows)[rows[i].0] == rows[i].1@,
    decreases rows.len(),
{
    if i < rows.len() - 1 {
        lemma_map_of_present(rows.drop_last(), i);
        assert(rows.drop_last()[i] == rows[i]);
    }
}

/// The mapping from a configuration to the address of its template
/// repository. Immutable after construction; a lookup miss is the
/// "unknown combination" error, with no fallback template.
pub struct TemplateRegistry {
    rows: Vec<(ConfigurationKey, String)>,
}

impl TemplateRegistry {
    /// The registry seen as a map from keys to template addresses.
    pub closed spec fn view(&self) -> Map<ConfigurationKey, Seq<char>> {
        map_of(self.rows@)
    }

    pub closed spec fn wf(&self) -> bool {
        unique_keys(self.rows@)
    }

    pub fn new() -> (r: TemplateRegistry)
        ensures
            r.wf(),
            r@ == Map::<ConfigurationKey, Seq<char>>::empty(),
    {
        TemplateRegistry { rows: Vec::new() }
    }

    pub fn contains_key(&self, key: &ConfigurationKey) -> (found: bool)
        requires
            self.wf(),
        ensures
            found == self@.contains_key(*key),
    {
        let n = self.rows.len();
        let mut i: usize = 0;
        while i < n
            invariant
                n == self.rows@.len(),
                i <= n,
                self.wf(),
                forall|j: int| 0 <= j < i ==> self.rows@[j].0 != *key,
            decreases n - i,
        {
            if self.rows[i].0 == *key {
                proof {
                    lemma_map_of_present(self.rows@, i as int);
                }
                return true;
            }
            i += 1;
        }
        proof {
            lemma_map_of_absent(self.rows@, *key);
        }
        false
    }

    /// Loads one row. A key already present is refused, so the registry keeps
    /// exactly one address per key; nothing changes in that case.
    pub fn add(&mut self, key: ConfigurationKey, address: String) -> (added: bool)
        requires
            old(self).wf(),
        ensures
            final(self).wf(),
            added == !old(self)@.contains_key(key),
            added ==> final(self)@ == old(self)@.insert(key, address@),
            !added ==> final(self)@ == old(self)@,
    {
        if self.contains_key(&key) {
            return false;
        }
        proof {
            assert(forall|i: int| 0 <= i < self.rows@.len()
                ==> (#[trigger] self.rows@[i]).0 != key) by {
                if exists|i: int| 0 <= i < self.rows@.len()
                    && (#[trigger] self.rows@[i]).0 == key {
                    let i = choose|i: int| 0 <= i < self.rows@.len()
                        && (#[trigger] self.rows@[i]).0 == key;
                    lemma_map_of_present(self.rows@, i);
                }
            }
        }
        self.rows.push((key, address));
        proof {
            assert(self.rows@.drop_last() == old(self).rows@);
        }
        true
    }

    /// Resolves a configuration to its template address: the address exactly
    /// when the registry holds the key, and the "unknown combination" error
    /// exactly when it does not.
    pub fn resolve(&self, key: &ConfigurationKey) -> (r: Result<String, ScaffoldError>)
        requires
            self.wf(),
        ensures
            match r {
                Ok(address) => self@.contains_key(*key) && address@ == self@[*key],
                Err(e) => !self@.contains_key(*key) && e == ScaffoldError::UnknownCombination,
            },
    {
        let n = self.rows.len();
        let mut i: usize = 0;
        while i < n
            invariant
                n == self.rows@.len(),
                i <= n,
                self.wf(),
                forall|j: int| 0 <= j < i ==> self.rows@[j].0 != *key,
            decreases n - i,
        {
            if self.rows[i].0 == *key {
                proof {
                    lemma_map_of_present(self.rows@, i as int);
                }
                return Ok(self.rows[i].1.clone());
            }
            i += 1;
        }
        proof {
            lemma_map_of_absent(self.rows@, *key);
        }
        Err(ScaffoldError::UnknownCombination)
    }
}

/// The key of the Rust + Axum + Svelte + SQLite template.
pub open spec fn key_rust_axum() -> ConfigurationKey {
    ConfigurationKey {
        language: Language::Rust,
        backend: BackendFramework::Axum,
        frontend: FrontendFramework::Svelte,
        database: Database::Sqlite,
    }
}

/// The key of the Go + Fiber + Svelte + SQLite template.
pub open spec fn key_go_fiber() -> ConfigurationKey {
    ConfigurationKey {
        language: Language::Go,
        backend: BackendFramework::Fiber,
        frontend: FrontendFramework::Svelte,
        database: Database::Sqlite,
    }
}

/// The key of the Go + Inertia + Svelte + SQLite template.
pub open spec fn key_go_inertia() -> ConfigurationKey {
    ConfigurationKey {
        language: Language::Go,
        backend: BackendFramework::GoInertia,
        frontend: FrontendFramework::Svelte,
        database: Database::Sqlite,
    }
}

/// The key of the Go + Chi + Svelte + SQLite template.
pub open spec fn key_go_chi() -> ConfigurationKey {
    ConfigurationKey {
        language: Language::Go,
        backend: BackendFramework::Chi,
        frontend: FrontendFramework::Svelte,
        database: Database::Sqlite,
    }
}

/// The registry the scaffolder starts with: the four known combinations and
/// their template repositories.
pub open spec fn spec_default_registry() -> Map<ConfigurationKey, Seq<char>> {
    Map::empty()
        .insert(key_rust_axum(), "git@github.com:fuji-184/Rust-Svelte5-SSG-Embeded-Template.git"@)
        .insert(key_go_fiber(), "git@github.com:fuji-184/GoFiber-Svelte5-SSG-Embedded-Template.git"@)
        .insert(key_go_inertia(), "git@github.com:fuji-184/Go-Inertia-Svelte-Sqlite-SPA-SSR-Template.git"@)
        .insert(key_go_chi(), "git@github.com:fuji-184/GoChi-Svelte5-Embedded-Template.git"@)
}

pub fn default_registry() -> (r: TemplateRegistry)
    ensures
        r.wf(),
        r@ == spec_default_registry(),
{
    let mut r = TemplateRegistry::new();
    let key1 = ConfigurationKey::new(
        Language::Rust,
        BackendFramework::Axum,
        FrontendFramework::Svelte,
        Database::Sqlite,
    );
    let key2 = ConfigurationKey::new(
        Language::Go,
        BackendFramework::Fiber,
        FrontendFramework::Svelte,
        Database::Sqlite,
    );
    let key3 = ConfigurationKey::new(
        Language::Go,
        BackendFramework::GoInertia,
        FrontendFramework::Svelte,
        Database::Sqlite,
    );
    let key4 = ConfigurationKey::new(
        Language::Go,
        BackendFramework::Chi,
        FrontendFramework::Svelte,
        Database::Sqlite,
    );
    let added1 = r.add(
        key1,
        "git@github.com:fuji-184/Rust-Svelte5-SSG-Embeded-Template.git".to_owned(),
    );
    let added2 = r.add(
        key2,
        "git@github.com:fuji-184/GoFiber-Svelte5-SSG-Embedded-Template.git".to_owned(),
    );
    let added3 = r.add(
        key3,
        "git@github.com:fuji-184/Go-Inertia-Svelte-Sqlite-SPA-SSR-Template.git".to_owned(),
    );
    let added4 = r.add(
        key4,
        "git@github.com:fuji-184/GoChi-Svelte5-Embedded-Template.git".to_owned(),
    );
    assert(added1 && added2 && added3 && added4);
    r
}

/// Each of the four enumerated configurations resolves to exactly one template
/// address in the starting registry, and the four addresses are pairwise
/// distinct.
pub proof fn lemma_default_registry_known_keys()
    ensures
        spec_default_registry().contains_key(key_rust_axum()),
        spec_default_registry().contains_key(key_go_fiber()),
        spec_default_registry().contains_key(key_go_inertia()),
        spec_default_registry().contains_key(key_go_chi()),
        spec_default_registry()[key_rust_axum()] != spec_default_registry()[key_go_fiber()],
        spec_default_registry()[key_rust_axum()] != spec_default_registry()[key_go_inertia()],
        spec_default_registry()[key_rust_axum()] != spec_default_registry()[key_go_chi()],
        spec_default_registry()[key_go_fiber()] != spec_default_registry()[key_go_inertia()],
        spec_default_registry()[key_go_fiber()] != spec_default_registry()[key_go_chi()],
        spec_default_registry()[key_go_inertia()] != spec_default_registry()[key_go_chi()],
{
    reveal_strlit("git@github.com:fuji-184/Rust-Svelte5-SSG-Embeded-Template.git");
    reveal_strlit("git@github.com:fuji-184/GoFiber-Svelte5-SSG-Embedded-Template.git");
    reveal_strlit("git@github.com:fuji-184/Go-Inertia-Svelte-Sqlite-SPA-SSR-Template.git");
    reveal_strlit("git@github.com:fuji-184/GoChi-Svelte5-Embedded-Template.git");
    let a = "git@github.com:fuji-184/Rust-Svelte5-SSG-Embeded-Template.git"@;
    let b = "git@github.com:fuji-184/GoFiber-Svelte5-SSG-Embedded-Template.git"@;
    let c = "git@github.com:fuji-184/Go-Inertia-Svelte-Sqlite-SPA-SSR-Template.git"@;
    let d = "git@github.com:fuji-184/GoChi-Svelte5-Embedded-Template.git"@;
    assert(a[24] == 'R');
    assert(b[24] == 'G');
    assert(c[24] == 'G');
    assert(d[24] == 'G');
    assert(b[26] == 'F');
    assert(c[26] == '-');
    assert(d[26] == 'C');
}

} // verus!
