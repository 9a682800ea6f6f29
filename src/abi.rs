use vstd::prelude::*;

verus! {

/// The object a module constructs. Its layout belongs to the module: the
/// loader only ever holds a reference to it and hands that reference back to
/// the module's own entry points.
pub struct Object {
    _private: [u8; 0],
}

/// The entry points a plugin module exports.
#[derive(Clone, Copy, Debug, PartialEq, Eq, Structural)]
pub enum Symbol {
    /// `() -> int32`: the ABI version; the one export every version shares.
    GetApiVersion,
    /// `() -> object`: constructs the object.
    Init,
    /// `(object) -> ()`: destroys the object.
    FreeObject,
    /// `(object) -> int32`: reads the object's state.
    GetInfo,
    /// `(object, int32) -> ()`: writes the object's state.
    SetInfo,
}

impl Symbol {
    pub open spec fn spec_name(self) -> Seq<char> {
        match self {
            Symbol::GetApiVersion => "get_api_version"@,
            Symbol::Init => "init"@,
            Symbol::FreeObject => "free_object"@,
            Symbol::GetInfo => "get_info"@,
            Symbol::SetInfo => "set_info"@,
        }
    }

    /// The exact name under which the module exports this entry point.
    pub fn name(&self) -> (r: &'static str)
        ensures
            r@ == self.spec_name(),
    {
        match self {
            Symbol::GetApiVersion => "get_api_version",
            Symbol::Init => "init",
            Symbol::FreeObject => "free_object",
            Symbol::GetInfo => "get_info",
            Symbol::SetInfo => "set_info",
        }
    }
}

/// Why constructing a plugin failed.
#[derive(Clone, Copy, Debug, PartialEq, Eq, Structural)]
pub enum PluginError {
    /// The module could not be loaded (missing file, wrong format,
    /// unresolved dependencies).
    Load,
    /// A required export is absent.
    Symbol { name: Symbol },
    /// The module reported a version with no known capability table.
    UnsupportedVersion { reported: i32 },
    /// The construct entry point returned no object.
    Construct,
}

/// The ABI versions with a known capability table.
#[derive(Clone, Copy, Debug, PartialEq, Eq, Structural)]
pub enum AbiVersion {
    V0,
}

impl AbiVersion {
    /// The version that a probe result names, if one is known.
    pub open spec fn spec_from_reported(reported: i32) -> Option<AbiVersion> {
        if reported == 0 {
            Some(AbiVersion::V0)
        } else {
            None
        }
    }

    /// The entry points this version's table binds, in the order they are
    /// resolved. The construct entry point comes last: it is only ever
    /// called once the whole table is in hand.
    pub open spec fn spec_required(self) -> Seq<Symbol> {
        match self {
            AbiVersion::V0 => seq![
                Symbol::FreeObject,
                Symbol::GetInfo,
                Symbol::SetInfo,
                Symbol::Init,
            ],
        }
    }

    /// Selects the capability table for a probe result; an unknown version is
    /// an error, never a partial table.
    pub fn from_reported(reported: i32) -> (r: Result<AbiVersion, PluginError>)
        ensures
            r == (match Self::spec_from_reported(reported) {
                Some(v) => Ok(v),
                None => Err(PluginError::UnsupportedVersion { reported }),
            }),
    {
        if reported == 0 {
            Ok(AbiVersion::V0)
        } else {
            Err(PluginError::UnsupportedVersion { reported })
        }
    }

    /// The number of entry points this version's table binds.
    pub fn required_len(&self) -> (r: usize)
        ensures
            r == self.spec_required().len(),
    {
        match self {
            AbiVersion::V0 => 4,
        }
    }

    /// The `i`-th entry point to resolve for this version.
    pub fn required(&self, i: usize) -> (r: Symbol)
        requires
            i < self.spec_required().len(),
        ensures
            r == self.spec_required()[i as int],
    {
        match self {
            AbiVersion::V0 => {
                if i == 0 {
                    Symbol::FreeObject
                } else if i == 1 {
                    Symbol::GetInfo
                } else if i == 2 {
                    Symbol::SetInfo
                } else {
                    Symbol::Init
                }
            },
        }
    }
}

} // verus!
