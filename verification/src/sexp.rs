//! The tagged-word layout and its decoder.
//!
//! A word is an immediate value when one of the tag patterns below matches;
//! any other word is opaque to this module (typically a heap reference owned
//! by an external collaborator) and every converter reports absence for it.
use vstd::prelude::*;

verus! {

/// Marker word for the boolean `false`: `(0 << 8) + 62`.
///
/// Every marker word follows the formula `(index << 8) + 62`, with the
/// indices 0 through 4 naming false, true, null, eof and void in turn.
/// The values are dictated by the foreign runtime's word format and are
/// reproduced here exactly.
pub const SEXP_FALSE: usize = 62;

/// Marker word for the boolean `true`: `(1 << 8) + 62`.
pub const SEXP_TRUE: usize = 318;

/// Marker word for the empty-list singleton: `(2 << 8) + 62`.
pub const SEXP_NULL: usize = 574;

/// Marker word for the end-of-file singleton: `(3 << 8) + 62`.
pub const SEXP_EOF: usize = 830;

/// Marker word for the void (no useful result) singleton: `(4 << 8) + 62`.
pub const SEXP_VOID: usize = 1086;

/// A word whose low bit is set encodes a small integer.
pub const SEXP_FIXNUM_MASK: usize = 1;

/// Extended immediates are tagged in the full low byte.
pub const SEXP_EXTENDED_MASK: usize = 0xff;

/// Low-byte tag of a character word.
pub const SEXP_CHAR_TAG: usize = 30;

/// What a word decodes to as a boolean: exactly the two boolean marker
/// words carry a payload, every other word none.
pub open spec fn bool_of_word(w: usize) -> Option<bool> {
    if w == SEXP_TRUE {
        Some(true)
    } else if w == SEXP_FALSE {
        Some(false)
    } else {
        None
    }
}

/// What a word decodes to as a small integer: if the low bit is set, the
/// payload is the arithmetic (sign-preserving) right shift of the word by
/// one bit, so negative two's-complement encodings decode correctly.
pub open spec fn fixnum_of_word(w: usize) -> Option<isize> {
    if w & SEXP_FIXNUM_MASK == 1 {
        Some((w as isize) >> 1)
    } else {
        None
    }
}

/// What a word decodes to as a character: if the low byte equals the
/// character tag, the payload is the single byte in bits 8..16.
pub open spec fn char_of_word(w: usize) -> Option<char> {
    if w & SEXP_EXTENDED_MASK == SEXP_CHAR_TAG {
        Some((((w >> 8) as u8) as char))
    } else {
        None
    }
}

/// The word that encodes the small integer `n`.
pub open spec fn fixnum_word(n: isize) -> usize {
    ((n << 1) | 1) as usize
}

/// The word that encodes the single-byte character with code `c`.
pub open spec fn char_word(c: u8) -> usize {
    ((c as usize) << 8) | SEXP_CHAR_TAG
}

/// How many of the immediate decode rules claim the word `w`: one for each
/// marker word it equals, one if it carries the fixnum tag, one if it
/// carries the character tag.
pub open spec fn immediate_decode_count(w: usize) -> int {
    (if w == SEXP_FALSE { 1int } else { 0int }) + (if w == SEXP_TRUE { 1int } else { 0int })
        + (if w == SEXP_NULL { 1int } else { 0int }) + (if w == SEXP_EOF { 1int } else { 0int })
        + (if w == SEXP_VOID { 1int } else { 0int }) + (if fixnum_of_word(w) is Some { 1int } else { 0int })
        + (if char_of_word(w) is Some { 1int } else { 0int })
}

/// Mutual exclusivity: the tag patterns are disjoint by construction, so a
/// word decodes to at most one of false, true, null, eof, void, fixnum or
/// character — never by runtime conflict resolution.  A word claimed by no
/// rule is simply unrecognized.
pub proof fn lemma_immediate_exclusive(w: usize)
    ensures
        immediate_decode_count(w) <= 1,
        bool_of_word(w) is Some <==> (w == SEXP_FALSE || w == SEXP_TRUE),
{
    assert(w & 1 == 1 ==> !(w & 0xff == 0x1e) && w != 62 && w != 318 && w != 574 && w != 830
        && w != 1086) by (bit_vector);
    assert(w & 0xff == 0x1e ==> w != 62 && w != 318 && w != 574 && w != 830 && w != 1086)
        by (bit_vector);
}

/// Fixnum round-trip, integer first: encoding any integer in the
/// representable signed range of a fixnum-shifted word as `(n << 1) | 1`
/// and decoding it again recovers exactly `n`.  The requirement
/// `(n << 1) >> 1 == n` says precisely that the shifted word still
/// represents `n` — it holds of every integer whose doubling fits in a
/// signed machine word, and `lemma_fixnum_round_trip_word` shows that every
/// decoded payload satisfies it.
pub proof fn lemma_fixnum_round_trip(n: isize)
    requires
        (n << 1) >> 1 == n,
    ensures
        fixnum_of_word(fixnum_word(n)) == Some(n),
{
    assert((((n << 1) | 1) as usize) & 1 == 1) by (bit_vector);
    assert(((((n << 1) | 1) as usize) as isize) >> 1 == n) by (bit_vector)
        requires
            (n << 1) >> 1 == n,
    ;
}

/// Fixnum round-trip, word first: every word that carries the fixnum tag
/// is exactly the encoding of its own payload, and that payload is in the
/// representable range.
pub proof fn lemma_fixnum_round_trip_word(w: usize)
    requires
        w & SEXP_FIXNUM_MASK == 1,
    ensures
        fixnum_of_word(w) matches Some(n) && fixnum_word(n) == w && (n << 1) >> 1 == n,
{
    assert(((((w as isize) >> 1) << 1) | 1) as usize == w) by (bit_vector)
        requires
            w & 1 == 1,
    ;
    assert((((w as isize) >> 1) << 1) >> 1 == (w as isize) >> 1) by (bit_vector);
}

/// Char round-trip: encoding any code point in 0..256 as
/// `(c << 8) | SEXP_CHAR_TAG` and decoding it again recovers exactly `c`.
pub proof fn lemma_char_round_trip(c: u8)
    ensures
        char_of_word(char_word(c)) == Some(c as char),
{
    assert((((c as usize) << 8) | 0x1e) & 0xff == 0x1e) by (bit_vector);
    assert(((((c as usize) << 8) | 0x1e) >> 8) as u8 == c) by (bit_vector);
}

/// Marker exactness: each of the five marker words decodes to its own
/// singleton and to nothing else — none of them is a fixnum, a character
/// or another marker.
pub proof fn lemma_marker_exact()
    ensures
        bool_of_word(SEXP_FALSE) == Some(false),
        bool_of_word(SEXP_TRUE) == Some(true),
        forall|w: usize|
            (w == SEXP_FALSE || w == SEXP_TRUE || w == SEXP_NULL || w == SEXP_EOF || w
                == SEXP_VOID) ==> fixnum_of_word(w) is None && char_of_word(w) is None,
        bool_of_word(SEXP_NULL) is None,
        bool_of_word(SEXP_EOF) is None,
        bool_of_word(SEXP_VOID) is None,
{
    assert(62usize & 1 != 1 && 62usize & 0xff != 0x1e) by (bit_vector);
    assert(318usize & 1 != 1 && 318usize & 0xff != 0x1e) by (bit_vector);
    assert(574usize & 1 != 1 && 574usize & 0xff != 0x1e) by (bit_vector);
    assert(830usize & 1 != 1 && 830usize & 0xff != 0x1e) by (bit_vector);
    assert(1086usize & 1 != 1 && 1086usize & 0xff != 0x1e) by (bit_vector);
}

/// Perturbing any single bit of a word moves it off every exact-equality
/// marker test it satisfied before: a marker predicate can only be an exact
/// comparison, never an accidental mask-based match.  The requirement says
/// only that `k` names a real bit of the word.  (A perturbation may land on
/// a different marker word — flipping bit 8 of the false word yields the
/// true word — so only the original word's own predicate is claimed here.)
pub proof fn lemma_marker_perturbation(m: usize, k: usize)
    requires
        (1usize << k) != 0,
    ensures
        m ^ (1usize << k) != m,
{
    assert((1usize << k) != 0 ==> m ^ (1usize << k) != m) by (bit_vector);
}

/// The decode contract that every immediate-value representation supports:
/// checked converters returning an optional typed payload, predicates that
/// are consistent with those converters by construction, and primitive
/// marker predicates for the payload-free singletons.
///
/// Each representation says through the `spec_*` functions what every word
/// of it decodes to; the executable converters and predicates are then held
/// to those functions, so a predicate can never disagree with its converter.
pub trait Sexp {
    /// The boolean payload, if the value is one of the two boolean markers.
    spec fn spec_bool(&self) -> Option<bool>;

    /// The integer payload, if the value is a fixnum.
    spec fn spec_fixnum(&self) -> Option<isize>;

    /// The bit pattern of a 32-bit floating payload, if the representation
    /// decodes one (none does in this crate: boxed floats are a heap type).
    spec fn spec_flonum(&self) -> Option<u32>;

    /// The character payload, if the value is a character.
    spec fn spec_char(&self) -> Option<char>;

    /// The text payload, if the representation decodes one (heap type,
    /// out of scope here).
    spec fn spec_string(&self) -> Option<Seq<char>>;

    /// The byte-sequence payload, if the representation decodes one (heap
    /// type, out of scope here).
    spec fn spec_bytes(&self) -> Option<Seq<u8>>;

    /// Whether the value is the null marker.
    spec fn spec_null(&self) -> bool;

    /// Whether the value is the eof marker.
    spec fn spec_eof(&self) -> bool;

    /// Whether the value is the void marker.
    spec fn spec_void(&self) -> bool;

    fn as_bool(&self) -> (r: Option<bool>)
        ensures
            r == self.spec_bool(),
    ;

    fn as_fixnum(&self) -> (r: Option<isize>)
        ensures
            r == self.spec_fixnum(),
    ;

    /// A present payload is the bit pattern of a 32-bit floating value.
    fn as_flonum(&self) -> (r: Option<u32>)
        ensures
            r == self.spec_flonum(),
    ;

    fn as_char(&self) -> (r: Option<char>)
        ensures
            r == self.spec_char(),
    ;

    fn as_string(&self) -> (r: Option<&str>)
        ensures
            r is None <==> self.spec_string() is None,
            (r matches Some(s) ==> self.spec_string() == Some(s@)),
    ;

    fn as_bytes(&self) -> (r: Option<&[u8]>)
        ensures
            r is None <==> self.spec_bytes() is None,
            (r matches Some(b) ==> self.spec_bytes() == Some(b@)),
    ;

    fn is_bool(&self) -> (r: bool)
        ensures
            r == (self.spec_bool() is Some),
    {
        self.as_bool().is_some()
    }

    fn is_fixnum(&self) -> (r: bool)
        ensures
            r == (self.spec_fixnum() is Some),
    {
        self.as_fixnum().is_some()
    }

    fn is_flonum(&self) -> (r: bool)
        ensures
            r == (self.spec_flonum() is Some),
    {
        self.as_flonum().is_some()
    }

    fn is_char(&self) -> (r: bool)
        ensures
            r == (self.spec_char() is Some),
    {
        self.as_char().is_some()
    }

    fn is_string(&self) -> (r: bool)
        ensures
            r == (self.spec_string() is Some),
    {
        self.as_string().is_some()
    }

    fn is_bytes(&self) -> (r: bool)
        ensures
            r == (self.spec_bytes() is Some),
    {
        self.as_bytes().is_some()
    }

    fn is_true(&self) -> (r: bool)
        ensures
            r == (self.spec_bool() == Some(true)),
    {
        match self.as_bool() {
            Some(b) => b,
            None => false,
        }
    }

    fn is_false(&self) -> (r: bool)
        ensures
            r == (self.spec_bool() == Some(false)),
    {
        match self.as_bool() {
            Some(b) => !b,
            None => false,
        }
    }

    fn is_null(&self) -> (r: bool)
        ensures
            r == self.spec_null(),
    ;

    fn is_eof(&self) -> (r: bool)
        ensures
            r == self.spec_eof(),
    ;

    fn is_void(&self) -> (r: bool)
        ensures
            r == self.spec_void(),
    ;
}

/// One word-sized datum from the foreign runtime, reinterpreted strictly as
/// an opaque fixed-width integer: this crate never dereferences it.
///
/// The name records that nothing here keeps whatever the word might
/// reference alive: a word that is a heap reference is "not yet proven
/// reachable", and guaranteeing reachability across a collection point is
/// the external heap collaborator's concern, not this decoder's.
#[derive(Clone, Copy, Debug, PartialEq, Eq, Structural)]
pub struct UnrootedSexp(pub usize);

impl View for UnrootedSexp {
    type V = usize;

    open spec fn view(&self) -> usize {
        self.0
    }
}

impl UnrootedSexp {
    /// Wrap a word built from the documented immediate encodings (or any
    /// word handed over by the foreign runtime, already cast to an integer).
    pub fn from_imm(tag: usize) -> (r: Self)
        ensures
            r@ == tag,
    {
        UnrootedSexp(tag)
    }
}

impl Sexp for UnrootedSexp {
    open spec fn spec_bool(&self) -> Option<bool> {
        bool_of_word(self.0)
    }

    open spec fn spec_fixnum(&self) -> Option<isize> {
        fixnum_of_word(self.0)
    }

    open spec fn spec_flonum(&self) -> Option<u32> {
        None
    }

    open spec fn spec_char(&self) -> Option<char> {
        char_of_word(self.0)
    }

    open spec fn spec_string(&self) -> Option<Seq<char>> {
        None
    }

    open spec fn spec_bytes(&self) -> Option<Seq<u8>> {
        None
    }

    open spec fn spec_null(&self) -> bool {
        self.0 == SEXP_NULL
    }

    open spec fn spec_eof(&self) -> bool {
        self.0 == SEXP_EOF
    }

    open spec fn spec_void(&self) -> bool {
        self.0 == SEXP_VOID
    }

    /// Exact equality against the two boolean words only; no masking.
    fn as_bool(&self) -> (r: Option<bool>) {
        if self.0 == SEXP_TRUE {
            Some(true)
        } else if self.0 == SEXP_FALSE {
            Some(false)
        } else {
            None
        }
    }

    /// Test the low bit; when set, decode with an arithmetic shift so that
    /// negative encoded integers come out right under two's complement.
    fn as_fixnum(&self) -> (r: Option<isize>) {
        if self.0 & SEXP_FIXNUM_MASK == 1 {
            Some((self.0 as isize) >> 1)
        } else {
            None
        }
    }

    /// No immediate bit pattern encodes a floating value in this layout;
    /// this stub is the seam for a future heap-aware representation.
    fn as_flonum(&self) -> (r: Option<u32>) {
        None
    }

    /// Mask the low byte; when it equals the character tag, bits 8..16 are
    /// the code point.
    fn as_char(&self) -> (r: Option<char>) {
        if self.0 & SEXP_EXTENDED_MASK == SEXP_CHAR_TAG {
            Some(((self.0 >> 8) as u8) as char)
        } else {
            None
        }
    }

    /// Heap type, out of scope here; seam for a heap-aware representation.
    fn as_string(&self) -> (r: Option<&str>) {
        None
    }

    /// Heap type, out of scope here; seam for a heap-aware representation.
    fn as_bytes(&self) -> (r: Option<&[u8]>) {
        None
    }

    fn is_null(&self) -> (r: bool) {
        self.0 == SEXP_NULL
    }

    fn is_eof(&self) -> (r: bool) {
        self.0 == SEXP_EOF
    }

    fn is_void(&self) -> (r: bool) {
        self.0 == SEXP_VOID
    }
}

} // verus!
