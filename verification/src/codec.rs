//! Leaf codec: one compiled bytecode module to and from its serialized
//! representation, selected by the encoding mode.
//!
//! In binary mode a module travels as its raw native bytes; in
//! human-readable mode it travels as standard base64 text. The mode is not
//! stored alongside the data: callers must decode with the mode that was
//! used to encode.

use base64ct::Encoding;
use vstd::prelude::*;

verus! {

/// The two target formats a module representation can be produced for.
#[derive(Clone, Copy, Debug, PartialEq, Eq, Structural)]
pub enum EncodingMode {
    Binary,
    HumanReadable,
}

/// A compiled bytecode module, held in its native binary form. The module is
/// opaque and pre-validated: this library never inspects its internals, it
/// only carries the bytes and converts them between representations.
#[derive(Clone, Debug, PartialEq, Eq)]
pub struct CompiledModule {
    pub bytes: Vec<u8>,
}

impl View for CompiledModule {
    type V = Seq<u8>;

    open spec fn view(&self) -> Seq<u8> {
        self.bytes@
    }
}

impl CompiledModule {
    pub fn new(bytes: Vec<u8>) -> (r: Self)
        ensures
            r@ == bytes@,
    {
        CompiledModule { bytes }
    }
}

/// The serialized representation of one compiled module: raw bytes for the
/// binary mode, base64 text for the human-readable mode.
#[derive(Clone, Debug, PartialEq, Eq)]
pub enum ModuleRepr {
    Binary(Vec<u8>),
    HumanReadable(String),
}

/// Why one module representation failed to decode.
#[derive(Clone, Copy, Debug, PartialEq, Eq, Structural)]
pub enum ModuleDecodeError {
    /// The representation carries the shape of the other mode.
    ModeMismatch,
    /// The text of a human-readable representation is not valid base64.
    MalformedBase64,
}

/// The base64 text that `base64ct::Base64::encode_string` produces for the
/// given bytes.
pub uninterp spec fn b64_of(bytes: Seq<u8>) -> Seq<char>;

/// What `base64ct::Base64::decode_vec` makes of the given text: the decoded
/// bytes, or `None` where the text is not well-formed base64.
pub uninterp spec fn b64_parse(text: Seq<char>) -> Option<Seq<u8>>;

#[verifier::external_type_specification]
#[verifier::external_body]
pub struct ExBase64Error(base64ct::Error);

/// Machine limit under which a byte sequence's base64 text fits in memory:
/// `base64ct::Base64::encode_string` panics where the encoded length would
/// overflow `usize`.
pub open spec fn fits_base64(bytes: Seq<u8>) -> bool {
    bytes.len() <= usize::MAX as int / 4
}

/// Relies on `base64ct::Base64::encode_string`: standard padded base64 of
/// the input bytes, determined by the bytes alone, and inverted exactly by
/// `base64ct::Base64::decode_vec`. It panics where the encoded length would
/// overflow `usize`, so inputs that large are excluded.
#[verifier::external_body]
fn base64_encode(bytes: &Vec<u8>) -> (r: String)
    requires
        fits_base64(bytes@),
    ensures
        r@ == b64_of(bytes@),
        b64_parse(r@) == Some(bytes@),
{
    base64ct::Base64::encode_string(bytes.as_slice())
}

/// Relies on `base64ct::Base64::decode_vec`: succeeds exactly on well-formed
/// padded standard base64 and returns the decoded bytes.
#[verifier::external_body]
fn base64_decode(text: &str) -> (r: Result<Vec<u8>, base64ct::Error>)
    ensures
        r matches Ok(v) ==> b64_parse(text@) == Some(v@),
        r is Err ==> b64_parse(text@) is None,
{
    base64ct::Base64::decode_vec(text)
}

/// What decoding a representation under a mode yields: the module bytes, or
/// `None` where the representation does not decode under that mode.
pub open spec fn spec_decode_module(repr: ModuleRepr, mode: EncodingMode) -> Option<Seq<u8>> {
    match repr {
        ModuleRepr::Binary(bytes) => if mode is Binary {
            Some(bytes@)
        } else {
            None
        },
        ModuleRepr::HumanReadable(text) => if mode is HumanReadable {
            b64_parse(text@)
        } else {
            None
        },
    }
}

/// The error reported for a representation that does not decode under the
/// given mode.
pub open spec fn spec_decode_module_error(repr: ModuleRepr, mode: EncodingMode) -> ModuleDecodeError {
    match repr {
        ModuleRepr::Binary(_) => ModuleDecodeError::ModeMismatch,
        ModuleRepr::HumanReadable(_) => if mode is Binary {
            ModuleDecodeError::ModeMismatch
        } else {
            ModuleDecodeError::MalformedBase64
        },
    }
}

/// Copy a byte vector. Verified replacement for `Vec::clone` so that the
/// copy's contents are pinned down in the contract.
pub fn copy_bytes(v: &Vec<u8>) -> (r: Vec<u8>)
    ensures
        r@ == v@,
{
    let mut out: Vec<u8> = Vec::new();
    let mut i: usize = 0;
    while i < v.len()
        invariant
            i <= v.len(),
            out@ == v@.take(i as int),
        decreases v.len() - i,
    {
        out.push(v[i]);
        i += 1;
        proof {
            assert(out@ =~= v@.take(i as int));
        }
    }
    proof {
        assert(out@ =~= v@);
    }
    out
}

/// Encode one compiled module for the given mode: its raw bytes in binary
/// mode, standard base64 text in human-readable mode. Whatever was encoded
/// decodes back under the same mode: the last clause is the module-level
/// round-trip guarantee.
pub fn encode_module(m: &CompiledModule, mode: EncodingMode) -> (r: ModuleRepr)
    requires
        mode is HumanReadable ==> fits_base64(m@),
    ensures
        mode is Binary ==> (r matches ModuleRepr::Binary(b) && b@ == m@),
        mode is HumanReadable ==> (r matches ModuleRepr::HumanReadable(t) && t@ == b64_of(m@)),
        spec_decode_module(r, mode) == Some(m@),
{
    match mode {
        EncodingMode::Binary => ModuleRepr::Binary(copy_bytes(&m.bytes)),
        EncodingMode::HumanReadable => ModuleRepr::HumanReadable(base64_encode(&m.bytes)),
    }
}

/// Decode one serialized module representation under the given mode. It
/// succeeds exactly where the representation carries the mode's shape and,
/// in human-readable mode, its text is well-formed base64; the result is
/// then pinned to `spec_decode_module`.
pub fn decode_module(repr: &ModuleRepr, mode: EncodingMode) -> (r: Result<
    CompiledModule,
    ModuleDecodeError,
>)
    ensures
        r matches Ok(m) ==> spec_decode_module(*repr, mode) == Some(m@),
        r is Ok <==> spec_decode_module(*repr, mode) is Some,
        r matches Err(e) ==> e == spec_decode_module_error(*repr, mode),
{
    match repr {
        ModuleRepr::Binary(bytes) => match mode {
            EncodingMode::Binary => Ok(CompiledModule { bytes: copy_bytes(bytes) }),
            EncodingMode::HumanReadable => Err(ModuleDecodeError::ModeMismatch),
        },
        ModuleRepr::HumanReadable(text) => match mode {
            EncodingMode::Binary => Err(ModuleDecodeError::ModeMismatch),
            EncodingMode::HumanReadable => match base64_decode(text.as_str()) {
                Ok(bytes) => Ok(CompiledModule { bytes }),
                Err(_) => Err(ModuleDecodeError::MalformedBase64),
            },
        },
    }
}

/// Cross-mode non-interchangeability: a representation carrying the shape
/// of one mode never decodes under the other mode.
pub proof fn lemma_cross_mode_rejection(repr: ModuleRepr, mode: EncodingMode)
    requires
        (repr matches ModuleRepr::Binary(_) && mode is HumanReadable) || (repr
            matches ModuleRepr::HumanReadable(_) && mode is Binary),
    ensures
        spec_decode_module(repr, mode) is None,
{
}

} // verus!
