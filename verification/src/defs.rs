//! Plain value types shared by the setup object models: status codes, the
//! timestamp pair, array bounds, instance state flags and the tagged-union
//! value decoder.

use vstd::prelude::*;

verus! {

/// Success status.
pub const S_OK: u32 = 0;

/// Success-with-information status: the enumeration sentinel for
/// "fewer items than requested remain".
pub const S_FALSE: u32 = 1;

/// Error status: an output pointer the protocol promised was left unset.
pub const E_POINTER: u32 = 0x80004003;

/// Error status: an argument was rejected.
pub const E_INVALIDARG: u32 = 0x80070057;

/// Error status: the foreign object broke its own contract.
pub const E_UNEXPECTED: u32 = 0x8000FFFF;

/// Error status: a requested element does not exist.
pub const E_NOT_FOUND: u32 = 0x80070490;

/// A foreign status code. Status codes with the high bit clear report
/// success; all others report failure.
#[derive(Debug, Clone, Copy, PartialEq, Eq, Structural)]
pub struct HResult {
    pub code: u32,
}

impl HResult {
    /// Whether this status reports success.
    pub open spec fn spec_is_ok(self) -> bool {
        self.code < 0x8000_0000
    }

    /// Whether this status reports success.
    #[verifier::when_used_as_spec(spec_is_ok)]
    pub fn is_ok(self) -> (r: bool)
        ensures
            r == self.spec_is_ok(),
    {
        self.code < 0x8000_0000
    }

    /// Turns a status into a result: success codes map to `Ok`.
    pub fn ok_hresult(self) -> (r: Result<(), HResult>)
        ensures
            r == if self.spec_is_ok() {
                Ok::<(), HResult>(())
            } else {
                Err::<(), HResult>(self)
            },
    {
        if self.is_ok() {
            Ok(())
        } else {
            Err(self)
        }
    }
}

/// A timestamp split into two 32-bit halves, low half first.
#[derive(Default, Debug, Clone, Copy, PartialEq, Eq, Structural)]
pub struct FILETIME {
    pub dwLowDateTime: u32,
    pub dwHighDateTime: u32,
}

impl FILETIME {
    /// The two halves joined into one 64-bit value.
    pub fn as_u64(&self) -> (r: u64)
        ensures
            r == self.dwHighDateTime as u64 * 0x1_0000_0000 + self.dwLowDateTime as u64,
    {
        let h: u64 = self.dwHighDateTime as u64;
        let l: u64 = self.dwLowDateTime as u64;
        assert((h << 32) | l == h * 0x1_0000_0000 + l) by (bit_vector)
            requires
                h < 0x1_0000_0000 && l < 0x1_0000_0000,
        ;
        (h << 32) | l
    }
}

/// The extent of one dimension of a bulk array.
#[derive(Debug, Clone, Copy, PartialEq, Eq, Structural)]
pub struct SAFEARRAYBOUND {
    pub cElements: u32,
    pub lLbound: i32,
}

/// The state flags of a discovered installation.
#[derive(Debug, Clone, Copy, PartialEq, Eq, Structural)]
pub struct InstanceState {
    pub value: i32,
}

impl InstanceState {
    /// Whether every state flag is set, meaning the installation is complete.
    pub open spec fn spec_is_complete(self) -> bool {
        self.value == -1i32
    }

    /// Whether every state flag is set, meaning the installation is complete.
    #[verifier::when_used_as_spec(spec_is_complete)]
    pub fn is_complete(self) -> (r: bool)
        ensures
            r == self.spec_is_complete(),
    {
        self.value == -1i32
    }
}

/// Tag of a text payload.
pub const VT_BSTR: u16 = 8;

/// Tag of a boolean payload.
pub const VT_BOOL: u16 = 11;

/// Tags of signed integer payloads of one, two, four and eight bytes.
pub const VT_I1: u16 = 16;

pub const VT_I2: u16 = 2;

pub const VT_I4: u16 = 3;

pub const VT_I8: u16 = 20;

/// Tags of unsigned integer payloads of one, two, four and eight bytes.
pub const VT_UI1: u16 = 17;

pub const VT_UI2: u16 = 18;

pub const VT_UI4: u16 = 19;

pub const VT_UI8: u16 = 21;

/// One decoded foreign tagged-union value. Tags outside the supported set
/// decode to `Unknown` in every build configuration; a caller that considers
/// an unsupported tag fatal tests for `Unknown` itself.
#[derive(Debug)]
pub enum Variant {
    Bstr(String),
    Bool(bool),
    Signed(i64),
    Unsigned(u64),
    Unknown,
}

impl Clone for Variant {
    fn clone(&self) -> (r: Self)
        ensures
            r == *self,
    {
        match self {
            Variant::Bstr(s) => Variant::Bstr(s.clone()),
            Variant::Bool(b) => Variant::Bool(*b),
            Variant::Signed(v) => Variant::Signed(*v),
            Variant::Unsigned(v) => Variant::Unsigned(*v),
            Variant::Unknown => Variant::Unknown,
        }
    }
}

/// A raw tagged-union value as the foreign side hands it over: a tag, the
/// raw eight payload bytes, and the text payload when the tag asks for one.
pub struct VARIANT {
    pub vt: u16,
    pub ll_val: u64,
    pub bstr_val: Option<String>,
}

impl VARIANT {
    /// A raw value is well formed when a text tag comes with a text payload.
    pub open spec fn wf(self) -> bool {
        self.vt == VT_BSTR ==> self.bstr_val is Some
    }

    /// What decoding a raw value yields.
    pub open spec fn decoded(self) -> Variant {
        if self.vt == VT_BSTR {
            Variant::Bstr(self.bstr_val->0)
        } else if self.vt == VT_BOOL {
            Variant::Bool(self.ll_val as u16 != 0)
        } else if self.vt == VT_I1 || self.vt == VT_I2 || self.vt == VT_I4 || self.vt == VT_I8 {
            Variant::Signed(self.ll_val as i64)
        } else if self.vt == VT_UI1 || self.vt == VT_UI2 || self.vt == VT_UI4 || self.vt
            == VT_UI8 {
            Variant::Unsigned(self.ll_val)
        } else {
            Variant::Unknown
        }
    }

    /// A raw value carrying a text payload.
    pub fn new_bstr(s: String) -> (r: VARIANT)
        ensures
            r.wf(),
            r.decoded() == Variant::Bstr(s),
    {
        VARIANT { vt: VT_BSTR, ll_val: 0, bstr_val: Some(s) }
    }

    /// A raw value carrying any non-text tag and the raw payload bytes.
    pub fn new_raw(vt: u16, ll_val: u64) -> (r: VARIANT)
        requires
            vt != VT_BSTR,
        ensures
            r.wf(),
            r.vt == vt,
            r.ll_val == ll_val,
            r.bstr_val is None,
    {
        VARIANT { vt, ll_val, bstr_val: None }
    }

    /// Decodes the raw value, consuming it; a text payload moves into the
    /// decoded value, so a raw value can be decoded only once.
    pub fn into_variant(self) -> (r: Variant)
        requires
            self.wf(),
        ensures
            r == self.decoded(),
    {
        if self.vt == VT_BSTR {
            let s = match self.bstr_val {
                Some(s) => s,
                None => {
                    // unreachable: well-formedness pairs the text tag with a payload
                    proof {
                        assert(false);
                    }
                    String::new()
                },
            };
            Variant::Bstr(s)
        } else if self.vt == VT_BOOL {
            Variant::Bool(self.ll_val as u16 != 0)
        } else if self.vt == VT_I1 || self.vt == VT_I2 || self.vt == VT_I4 || self.vt == VT_I8 {
            Variant::Signed(self.ll_val as i64)
        } else if self.vt == VT_UI1 || self.vt == VT_UI2 || self.vt == VT_UI4 || self.vt == VT_UI8 {
            Variant::Unsigned(self.ll_val)
        } else {
            Variant::Unknown
        }
    }
}

} // verus!
