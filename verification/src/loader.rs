//! Library loader and symbol registry: the one-time initialization
//! barrier of the process. Opening the library file and looking its
//! symbols up is the embedding program's work (it needs the dynamic
//! loader); the outcome of that scan is handed in as plain values, and
//! the decision — reject a second load, fail the whole load on the first
//! absent entry point, or publish all entry points atomically — is made
//! and proved here.

use vstd::prelude::*;
use vstd::string::StringExecFns;
use crate::errors::LoadError;

verus! {

/// The fixed, enumerated set of entry-point names a loaded library must
/// export; their order is part of the compatibility surface.
pub open spec fn required_symbol_names() -> Seq<Seq<char>> {
    seq![
        "goCombineJSON"@,
        "goParseParams"@,
        "goCreateConnection"@,
        "goCloseConnection"@,
        "goCancelRequest"@,
        "rustgoCreateRows"@,
        "rustgoResultMetaData"@,
        "rustgoFetchRow"@,
        "goNextResult"@,
        "goCloseRows"@,
        "goFreePointer"@,
    ]
}

/// The entry-point names, in their fixed order, for the embedding
/// program to look up.
pub fn required_symbols() -> (v: Vec<String>)
    ensures
        v@.map_values(|s: String| s@) =~= required_symbol_names(),
{
    let mut v: Vec<String> = Vec::new();
    v.push(String::from_str("goCombineJSON"));
    v.push(String::from_str("goParseParams"));
    v.push(String::from_str("goCreateConnection"));
    v.push(String::from_str("goCloseConnection"));
    v.push(String::from_str("goCancelRequest"));
    v.push(String::from_str("rustgoCreateRows"));
    v.push(String::from_str("rustgoResultMetaData"));
    v.push(String::from_str("rustgoFetchRow"));
    v.push(String::from_str("goNextResult"));
    v.push(String::from_str("goCloseRows"));
    v.push(String::from_str("goFreePointer"));
    v
}

/// What the embedding program's scan of the library file found: whether
/// the file opened (and the loader's message if not), and, for each
/// required entry point in its fixed order, whether the symbol resolved.
pub struct SymbolScan {
    pub open_error: Option<String>,
    pub found: Vec<bool>,
}

/// The process-wide symbol registry: empty until the one successful
/// load, then holding every entry-point name at once.
pub struct SymbolRegistry {
    loaded: bool,
    published: Vec<String>,
}

impl SymbolRegistry {
    /// The one-time barrier: whether a load already succeeded.
    pub closed spec fn loaded(&self) -> bool {
        self.loaded
    }

    /// The entry-point names published by the successful load.
    pub closed spec fn published(&self) -> Seq<Seq<char>> {
        self.published@.map_values(|s: String| s@)
    }

    /// A fresh registry: nothing loaded, nothing published.
    pub fn new() -> (r: SymbolRegistry)
        ensures
            !r.loaded(),
            r.published() =~= Seq::<Seq<char>>::empty(),
    {
        SymbolRegistry { loaded: false, published: Vec::new() }
    }

    /// Whether a load already succeeded.
    pub fn is_loaded(&self) -> (b: bool)
        ensures
            b == self.loaded(),
    {
        self.loaded
    }

    /// Decide a load attempt from the scan of the library file. A second
    /// attempt is rejected with `AlreadyLoaded` and changes nothing. An
    /// attempt whose file did not open fails with `OpenFailed`. If any
    /// required entry point is absent, the whole load fails with
    /// `LinkError` naming the first absent one, and nothing is
    /// published. Otherwise every entry point is published at once.
    pub fn load_driver(&mut self, scan: &SymbolScan) -> (r: Result<(), LoadError>)
        requires
            scan.found@.len() == required_symbol_names().len(),
        ensures
            old(self).loaded() ==> r == Result::<(), LoadError>::Err(LoadError::AlreadyLoaded)
                && *final(self) == *old(self),
            !old(self).loaded() ==> match r {
                Result::Ok(()) => {
                    &&& scan.open_error is None
                    &&& (forall|k: int| 0 <= k < scan.found@.len() ==> scan.found@[k])
                    &&& final(self).loaded()
                    &&& final(self).published() =~= required_symbol_names()
                },
                Result::Err(e) => *final(self) == *old(self) && !final(self).loaded() && (match e {
                    LoadError::AlreadyLoaded => false,
                    LoadError::OpenFailed(m) => scan.open_error == Option::Some(m),
                    LoadError::LinkError(name) => {
                        &&& scan.open_error is None
                        &&& exists|k: int|
                            0 <= k < scan.found@.len() && !scan.found@[k] && name@
                                == required_symbol_names()[k] && (forall|j: int|
                                0 <= j < k ==> scan.found@[j])
                    },
                }),
            },
    {
        if self.loaded {
            return Err(LoadError::AlreadyLoaded);
        }
        match &scan.open_error {
            Option::Some(m) => {
                return Err(LoadError::OpenFailed(m.clone()));
            },
            Option::None => {},
        }
        let names = required_symbols();
        let n = names.len();
        let mut i: usize = 0;
        while i < n
            invariant
                !old(self).loaded(),
                *self == *old(self),
                scan.open_error is None,
                i <= n,
                n == required_symbol_names().len(),
                names@.map_values(|s: String| s@) =~= required_symbol_names(),
                scan.found@.len() == n,
                forall|j: int| 0 <= j < i ==> scan.found@[j],
            decreases n - i,
        {
            if !scan.found[i] {
                proof {
                    assert(names@[i as int]@ == required_symbol_names()[i as int]);
                }
                return Err(LoadError::LinkError(names[i].clone()));
            }
            i += 1;
        }
        self.published = names;
        self.loaded = true;
        Ok(())
    }
}

} // verus!
