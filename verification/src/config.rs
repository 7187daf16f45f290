use vstd::prelude::*;

verus! {

/// Relies on uuid::Uuid::new_v4 for a freshly drawn random identifier,
/// carried as its 128-bit value. Nothing can be promised of a random value.
#[verifier::external_body]
fn fresh_uuid() -> (r: u128) {
    uuid::Uuid::new_v4().as_u128()
}

/// One configured music library: a display name, the path of its on-disk
/// index, and its identifier.
#[derive(Debug, Clone, PartialEq, Eq)]
pub struct ConfigLibrary {
    pub name: String,
    pub path: String,
    pub uuid: u128,
}

impl ConfigLibrary {
    /// A fresh library entry: empty name and path, a newly drawn identifier.
    pub fn new() -> (r: Self)
        ensures
            r.name@ == Seq::<char>::empty(),
            r.path@ == Seq::<char>::empty(),
    {
        ConfigLibrary { name: String::new(), path: String::new(), uuid: fresh_uuid() }
    }
}

impl Default for ConfigLibrary {
    /// Same as `new`: empty name and path, a newly drawn identifier.
    fn default() -> (r: Self)
        ensures
            r.name@ == Seq::<char>::empty(),
            r.path@ == Seq::<char>::empty(),
    {
        ConfigLibrary::new()
    }
}

/// Errors from library lookups.
#[derive(Debug, Clone, Copy, PartialEq, Eq, Structural)]
pub enum ConfigError {
    /// No library carries the requested identifier.
    NoConfigLibrary(u128),
    /// No library carries the configured default identifier.
    NoDefaultLibrary,
}

/// The set of configured libraries, with the identifier of the default one
/// and the folder that holds their on-disk indexes.
#[derive(Debug, Clone, PartialEq, Eq)]
pub struct ConfigLibraries {
    pub default_library: u128,
    pub library_folder: String,
    pub libraries: Vec<ConfigLibrary>,
}

impl ConfigLibraries {
    /// Makes `uuid` the default library identifier.
    pub fn set_default(&mut self, uuid: &u128)
        ensures
            final(self).default_library == *uuid,
            final(self).library_folder == old(self).library_folder,
            final(self).libraries == old(self).libraries,
    {
        self.default_library = *uuid;
    }

    /// The first library whose identifier is the configured default, or
    /// `NoDefaultLibrary` when none carries it.
    pub fn get_default(&self) -> (r: Result<&ConfigLibrary, ConfigError>)
        ensures
            r matches Ok(lib) ==> exists|i: int|
                0 <= i < self.libraries@.len() && self.libraries@[i].uuid == self.default_library
                    && *lib == self.libraries@[i] && (forall|j: int|
                    0 <= j < i ==> self.libraries@[j].uuid != self.default_library),
            r is Err <==> (forall|i: int|
                0 <= i < self.libraries@.len() ==> self.libraries@[i].uuid
                    != self.default_library),
            r is Err ==> r->Err_0 is NoDefaultLibrary,
    {
        let n: usize = self.libraries.len();
        let mut i: usize = 0;
        while i < n
            invariant
                n == self.libraries@.len(),
                0 <= i <= n,
                forall|j: int| 0 <= j < i ==> self.libraries@[j].uuid != self.default_library,
            decreases n - i,
        {
            if self.libraries[i].uuid == self.default_library {
                return Ok(&self.libraries[i]);
            }
            i += 1;
        }
        Err(ConfigError::NoDefaultLibrary)
    }

    /// A copy of the first library carrying `uuid`, or
    /// `NoConfigLibrary(uuid)` when none does.
    pub fn get_library(&self, uuid: &u128) -> (r: Result<ConfigLibrary, ConfigError>)
        ensures
            r matches Ok(lib) ==> exists|i: int|
                0 <= i < self.libraries@.len() && self.libraries@[i].uuid == *uuid && lib
                    == self.libraries@[i] && (forall|j: int|
                    0 <= j < i ==> self.libraries@[j].uuid != *uuid),
            r is Err <==> (forall|i: int|
                0 <= i < self.libraries@.len() ==> self.libraries@[i].uuid != *uuid),
            r is Err ==> r->Err_0 == ConfigError::NoConfigLibrary(*uuid),
    {
        let n: usize = self.libraries.len();
        let mut i: usize = 0;
        while i < n
            invariant
                n == self.libraries@.len(),
                0 <= i <= n,
                forall|j: int| 0 <= j < i ==> self.libraries@[j].uuid != *uuid,
            decreases n - i,
        {
            if self.libraries[i].uuid == *uuid {
                let found = &self.libraries[i];
                return Ok(
                    ConfigLibrary {
                        name: found.name.clone(),
                        path: found.path.clone(),
                        uuid: found.uuid,
                    },
                );
            }
            i += 1;
        }
        Err(ConfigError::NoConfigLibrary(*uuid))
    }

    /// Whether some library carries `uuid`.
    pub fn uuid_exists(&self, uuid: &u128) -> (r: bool)
        ensures
            r == exists|i: int|
                0 <= i < self.libraries@.len() && self.libraries@[i].uuid == *uuid,
    {
        let n: usize = self.libraries.len();
        let mut i: usize = 0;
        while i < n
            invariant
                n == self.libraries@.len(),
                0 <= i <= n,
                forall|j: int| 0 <= j < i ==> self.libraries@[j].uuid != *uuid,
            decreases n - i,
        {
            if self.libraries[i].uuid == *uuid {
                assert(self.libraries@[i as int].uuid == *uuid);
                return true;
            }
            i += 1;
        }
        false
    }
}

impl Default for ConfigLibraries {
    /// No libraries, empty folder, a zero default identifier.
    fn default() -> (r: Self)
        ensures
            r.default_library == 0,
            r.library_folder@ == Seq::<char>::empty(),
            r.libraries@ == Seq::<ConfigLibrary>::empty(),
    {
        ConfigLibraries { default_library: 0, library_folder: String::new(), libraries: Vec::new() }
    }
}

/// The whole configuration: where it lives on disk, the configured
/// libraries, and the saved volume (in millionths of full scale).
#[derive(Debug, Clone, PartialEq, Eq)]
pub struct Config {
    pub path: String,
    pub libraries: ConfigLibraries,
    pub volume: i64,
}

impl Config {
    /// A fresh configuration holding one fresh library entry.
    pub fn new() -> (r: Self)
        ensures
            r.path@ == Seq::<char>::empty(),
            r.libraries.default_library == 0,
            r.libraries.library_folder@ == Seq::<char>::empty(),
            r.libraries.libraries@.len() == 1,
            r.libraries.libraries@[0].name@ == Seq::<char>::empty(),
            r.libraries.libraries@[0].path@ == Seq::<char>::empty(),
    {
        let mut libs: Vec<ConfigLibrary> = Vec::new();
        libs.push(ConfigLibrary::default());
        Config {
            path: String::new(),
            libraries: ConfigLibraries {
                default_library: 0,
                library_folder: String::new(),
                libraries: libs,
            },
            volume: 0,
        }
    }

    /// A completely empty configuration.
    pub fn new_main() -> (r: Self)
        ensures
            r.path@ == Seq::<char>::empty(),
            r.libraries.default_library == 0,
            r.libraries.library_folder@ == Seq::<char>::empty(),
            r.libraries.libraries@ == Seq::<ConfigLibrary>::empty(),
    {
        Config::default()
    }
}

impl Default for Config {
    /// Empty path, no libraries, zero volume.
    fn default() -> (r: Self)
        ensures
            r.path@ == Seq::<char>::empty(),
            r.libraries.default_library == 0,
            r.libraries.library_folder@ == Seq::<char>::empty(),
            r.libraries.libraries@ == Seq::<ConfigLibrary>::empty(),
    {
        Config { path: String::new(), libraries: ConfigLibraries::default(), volume: 0 }
    }
}

} // verus!
