//! What it takes for a type to be stored: a default value, an encoding to
//! JSON text, and a decoding back.
//!
//! The store is generic over its payload. A payload type brings its own
//! canonical encoding (`spec_encoded`), its decoding relation
//! (`spec_decode`), and a proof that decoding the canonical encoding gives
//! the value back. The executable `encode_json` and `decode_json` are held
//! to those specifications, so every implementor enjoys the round-trip law
//! below.

use vstd::prelude::*;

verus! {

/// A type that can live in a configuration file: it has a well-defined
/// default, encodes to JSON text, and decodes from it.
pub trait ConfigData: Sized {
    /// The default value, used when no file exists yet.
    spec fn spec_default() -> Self;

    /// The canonical (pretty-printed) encoding of this value.
    spec fn spec_encoded(self) -> Seq<char>;

    /// Which values a given text decodes to, if any. Every canonical
    /// encoding decodes, but a type may accept other spellings too.
    spec fn spec_decode(s: Seq<char>) -> Option<Self>;

    /// Whether this value encodes at all; encoding fails exactly when it
    /// does not.
    spec fn spec_encodable(self) -> bool;

    /// Decoding the canonical encoding of a value gives the value back.
    proof fn lemma_decode_encoded(self)
        ensures
            Self::spec_decode(self.spec_encoded()) == Some(self),
    ;

    /// Produce the default value.
    fn default_data() -> (r: Self)
        ensures
            r == Self::spec_default(),
    ;

    /// Encode this value as JSON text: `Ok` with exactly the canonical
    /// encoding when the value is encodable, `Err` with the text of the
    /// failure when it is not.
    fn encode_json(&self) -> (r: Result<String, String>)
        ensures
            r matches Ok(s) ==> s@ == self.spec_encoded(),
            r is Ok <==> self.spec_encodable(),
    ;

    /// Decode JSON text into a value: `Ok` with the decoded value exactly
    /// when the text decodes, `Err` with the text of the failure exactly
    /// when it does not.
    fn decode_json(s: &str) -> (r: Result<Self, String>)
        ensures
            r matches Ok(v) ==> Self::spec_decode(s@) == Some(v),
            r is Err ==> Self::spec_decode(s@) is None,
    ;
}

/// The round-trip law: saving a value and loading the saved text yields an
/// equal value. Saving writes exactly the canonical encoding of the value,
/// so this says that a file holding what a save wrote decodes to the value
/// that was saved, for every value of every payload type.
pub proof fn lemma_save_load_round_trip<T: ConfigData>(v: T)
    ensures
        T::spec_decode(v.spec_encoded()) == Some(v),
{
    v.lemma_decode_encoded();
}

/// The idempotence law: the encoded text is a function of the value alone,
/// so saving an unchanged value twice writes byte-for-byte identical
/// contents both times.
pub proof fn lemma_save_idempotent<T: ConfigData>(a: T, b: T)
    requires
        a == b,
    ensures
        a.spec_encoded() == b.spec_encoded(),
{
}

} // verus!
