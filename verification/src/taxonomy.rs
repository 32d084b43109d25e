//! The trap-code taxonomy: a closed enumeration of canonical fault reasons.
//!
//! Every code-generation backend translates its own fault conditions into
//! this shared vocabulary, so downstream tooling can rely on one stable set
//! of numeric discriminants, human-readable messages, and short tags.

use vstd::prelude::*;

verus! {

/// A trap code describing the reason for a trap.
///
/// The taxonomy is closed: exactly these twelve variants exist, and parsing
/// a tag outside the defined set fails explicitly rather than defaulting.
#[derive(Clone, Copy, PartialEq, Eq, Structural, Debug, Hash)]
pub enum TrapCode {
    /// The current stack space was exhausted.
    StackOverflow,
    /// A bounds check on a linear-memory access failed.
    HeapAccessOutOfBounds,
    /// A linear-memory access was misaligned.
    HeapMisaligned,
    /// A bounds check on a table access failed.
    TableAccessOutOfBounds,
    /// Other bounds checking error.
    OutOfBounds,
    /// Indirect call to a null table entry.
    IndirectCallToNull,
    /// Signature mismatch on indirect call.
    BadSignature,
    /// An integer arithmetic operation caused an overflow.
    IntegerOverflow,
    /// An integer division by zero.
    IntegerDivisionByZero,
    /// Failed conversion to integer.
    BadConversionToInteger,
    /// Code that was supposed to have been unreachable was reached.
    UnreachableCodeReached,
    /// An atomic memory access was attempted with an unaligned pointer.
    UnalignedAtomic,
}

/// The constant human-readable message of each code.
pub open spec fn message_spec(c: TrapCode) -> Seq<char> {
    match c {
        TrapCode::StackOverflow => "call stack exhausted"@,
        TrapCode::HeapAccessOutOfBounds => "out of bounds memory access"@,
        TrapCode::HeapMisaligned => "misaligned heap"@,
        TrapCode::TableAccessOutOfBounds => "undefined element: out of bounds table access"@,
        TrapCode::OutOfBounds => "out of bounds"@,
        TrapCode::IndirectCallToNull => "uninitialized element"@,
        TrapCode::BadSignature => "indirect call type mismatch"@,
        TrapCode::IntegerOverflow => "integer overflow"@,
        TrapCode::IntegerDivisionByZero => "integer divide by zero"@,
        TrapCode::BadConversionToInteger => "invalid conversion to integer"@,
        TrapCode::UnreachableCodeReached => "unreachable"@,
        TrapCode::UnalignedAtomic => "unaligned atomic access"@,
    }
}

/// The constant short lowercase tag of each code, used for textual interchange.
pub open spec fn tag_spec(c: TrapCode) -> Seq<char> {
    match c {
        TrapCode::StackOverflow => "stk_ovf"@,
        TrapCode::HeapAccessOutOfBounds => "heap_get_oob"@,
        TrapCode::HeapMisaligned => "heap_misaligned"@,
        TrapCode::TableAccessOutOfBounds => "table_get_oob"@,
        TrapCode::OutOfBounds => "oob"@,
        TrapCode::IndirectCallToNull => "icall_null"@,
        TrapCode::BadSignature => "bad_sig"@,
        TrapCode::IntegerOverflow => "int_ovf"@,
        TrapCode::IntegerDivisionByZero => "int_divz"@,
        TrapCode::BadConversionToInteger => "bad_toint"@,
        TrapCode::UnreachableCodeReached => "unreachable"@,
        TrapCode::UnalignedAtomic => "unalign_atom"@,
    }
}

/// The stable numeric discriminant of each code, fixed forever: it may be
/// embedded in compiled-artifact side tables, so renumbering would break
/// binary compatibility.
pub open spec fn discriminant_spec(c: TrapCode) -> u32 {
    match c {
        TrapCode::StackOverflow => 0u32,
        TrapCode::HeapAccessOutOfBounds => 1u32,
        TrapCode::HeapMisaligned => 2u32,
        TrapCode::TableAccessOutOfBounds => 3u32,
        TrapCode::OutOfBounds => 4u32,
        TrapCode::IndirectCallToNull => 5u32,
        TrapCode::BadSignature => 6u32,
        TrapCode::IntegerOverflow => 7u32,
        TrapCode::IntegerDivisionByZero => 8u32,
        TrapCode::BadConversionToInteger => 9u32,
        TrapCode::UnreachableCodeReached => 10u32,
        TrapCode::UnalignedAtomic => 11u32,
    }
}

/// The code with a given numeric discriminant, if any.
pub open spec fn from_discriminant_spec(d: u32) -> Option<TrapCode> {
    if d == 0 {
        Some(TrapCode::StackOverflow)
    } else if d == 1 {
        Some(TrapCode::HeapAccessOutOfBounds)
    } else if d == 2 {
        Some(TrapCode::HeapMisaligned)
    } else if d == 3 {
        Some(TrapCode::TableAccessOutOfBounds)
    } else if d == 4 {
        Some(TrapCode::OutOfBounds)
    } else if d == 5 {
        Some(TrapCode::IndirectCallToNull)
    } else if d == 6 {
        Some(TrapCode::BadSignature)
    } else if d == 7 {
        Some(TrapCode::IntegerOverflow)
    } else if d == 8 {
        Some(TrapCode::IntegerDivisionByZero)
    } else if d == 9 {
        Some(TrapCode::BadConversionToInteger)
    } else if d == 10 {
        Some(TrapCode::UnreachableCodeReached)
    } else if d == 11 {
        Some(TrapCode::UnalignedAtomic)
    } else {
        None
    }
}

/// The code whose tag a string holds. Parsing is exact: no case folding,
/// no numeric fallback, no prefix matching; any string outside the defined
/// tag set fails explicitly.
pub open spec fn parse_spec(s: Seq<char>) -> Result<TrapCode, ()> {
    if s == tag_spec(TrapCode::StackOverflow) {
        Ok(TrapCode::StackOverflow)
    } else if s == tag_spec(TrapCode::HeapAccessOutOfBounds) {
        Ok(TrapCode::HeapAccessOutOfBounds)
    } else if s == tag_spec(TrapCode::HeapMisaligned) {
        Ok(TrapCode::HeapMisaligned)
    } else if s == tag_spec(TrapCode::TableAccessOutOfBounds) {
        Ok(TrapCode::TableAccessOutOfBounds)
    } else if s == tag_spec(TrapCode::OutOfBounds) {
        Ok(TrapCode::OutOfBounds)
    } else if s == tag_spec(TrapCode::IndirectCallToNull) {
        Ok(TrapCode::IndirectCallToNull)
    } else if s == tag_spec(TrapCode::BadSignature) {
        Ok(TrapCode::BadSignature)
    } else if s == tag_spec(TrapCode::IntegerOverflow) {
        Ok(TrapCode::IntegerOverflow)
    } else if s == tag_spec(TrapCode::IntegerDivisionByZero) {
        Ok(TrapCode::IntegerDivisionByZero)
    } else if s == tag_spec(TrapCode::BadConversionToInteger) {
        Ok(TrapCode::BadConversionToInteger)
    } else if s == tag_spec(TrapCode::UnreachableCodeReached) {
        Ok(TrapCode::UnreachableCodeReached)
    } else if s == tag_spec(TrapCode::UnalignedAtomic) {
        Ok(TrapCode::UnalignedAtomic)
    } else {
        Err(())
    }
}

/// Character-by-character string equality, decided on the views.
fn str_eq(a: &str, b: &str) -> (r: bool)
    ensures
        r == (a@ == b@),
{
    let a_len = a.unicode_len();
    let b_len = b.unicode_len();
    if a_len != b_len {
        return false;
    }
    let mut i: usize = 0;
    while i < a_len
        invariant
            i <= a_len,
            a_len == a@.len(),
            a@.len() == b@.len(),
            forall|j: int| 0 <= j < i ==> a@[j] == b@[j],
        decreases a_len - i,
    {
        if a.get_char(i) != b.get_char(i) {
            return false;
        }
        i += 1;
    }
    proof {
        assert(a@ =~= b@);
    }
    true
}

impl TrapCode {
    /// Gets the message for this trap code.
    pub fn message(&self) -> (r: &str)
        ensures
            r@ == message_spec(*self),
    {
        match self {
            TrapCode::StackOverflow => "call stack exhausted",
            TrapCode::HeapAccessOutOfBounds => "out of bounds memory access",
            TrapCode::HeapMisaligned => "misaligned heap",
            TrapCode::TableAccessOutOfBounds => "undefined element: out of bounds table access",
            TrapCode::OutOfBounds => "out of bounds",
            TrapCode::IndirectCallToNull => "uninitialized element",
            TrapCode::BadSignature => "indirect call type mismatch",
            TrapCode::IntegerOverflow => "integer overflow",
            TrapCode::IntegerDivisionByZero => "integer divide by zero",
            TrapCode::BadConversionToInteger => "invalid conversion to integer",
            TrapCode::UnreachableCodeReached => "unreachable",
            TrapCode::UnalignedAtomic => "unaligned atomic access",
        }
    }

    /// Gets the short machine-parseable tag for this trap code.
    pub fn tag(&self) -> (r: &str)
        ensures
            r@ == tag_spec(*self),
    {
        match self {
            TrapCode::StackOverflow => "stk_ovf",
            TrapCode::HeapAccessOutOfBounds => "heap_get_oob",
            TrapCode::HeapMisaligned => "heap_misaligned",
            TrapCode::TableAccessOutOfBounds => "table_get_oob",
            TrapCode::OutOfBounds => "oob",
            TrapCode::IndirectCallToNull => "icall_null",
            TrapCode::BadSignature => "bad_sig",
            TrapCode::IntegerOverflow => "int_ovf",
            TrapCode::IntegerDivisionByZero => "int_divz",
            TrapCode::BadConversionToInteger => "bad_toint",
            TrapCode::UnreachableCodeReached => "unreachable",
            TrapCode::UnalignedAtomic => "unalign_atom",
        }
    }

    /// Renders this trap code as its short tag, in an owned string.
    pub fn to_string(&self) -> (r: String)
        ensures
            r@ == tag_spec(*self),
    {
        self.tag().to_owned()
    }

    /// Parses a short tag back into its trap code; fails explicitly on any
    /// string that is not exactly one of the twelve defined tags.
    pub fn from_tag(s: &str) -> (r: Result<TrapCode, ()>)
        ensures
            r == parse_spec(s@),
    {
        if str_eq(s, "stk_ovf") {
            Ok(TrapCode::StackOverflow)
        } else if str_eq(s, "heap_get_oob") {
            Ok(TrapCode::HeapAccessOutOfBounds)
        } else if str_eq(s, "heap_misaligned") {
            Ok(TrapCode::HeapMisaligned)
        } else if str_eq(s, "table_get_oob") {
            Ok(TrapCode::TableAccessOutOfBounds)
        } else if str_eq(s, "oob") {
            Ok(TrapCode::OutOfBounds)
        } else if str_eq(s, "icall_null") {
            Ok(TrapCode::IndirectCallToNull)
        } else if str_eq(s, "bad_sig") {
            Ok(TrapCode::BadSignature)
        } else if str_eq(s, "int_ovf") {
            Ok(TrapCode::IntegerOverflow)
        } else if str_eq(s, "int_divz") {
            Ok(TrapCode::IntegerDivisionByZero)
        } else if str_eq(s, "bad_toint") {
            Ok(TrapCode::BadConversionToInteger)
        } else if str_eq(s, "unreachable") {
            Ok(TrapCode::UnreachableCodeReached)
        } else if str_eq(s, "unalign_atom") {
            Ok(TrapCode::UnalignedAtomic)
        } else {
            Err(())
        }
    }

    /// The stable numeric discriminant of this code.
    pub fn discriminant(&self) -> (r: u32)
        ensures
            r == discriminant_spec(*self),
    {
        match self {
            TrapCode::StackOverflow => 0,
            TrapCode::HeapAccessOutOfBounds => 1,
            TrapCode::HeapMisaligned => 2,
            TrapCode::TableAccessOutOfBounds => 3,
            TrapCode::OutOfBounds => 4,
            TrapCode::IndirectCallToNull => 5,
            TrapCode::BadSignature => 6,
            TrapCode::IntegerOverflow => 7,
            TrapCode::IntegerDivisionByZero => 8,
            TrapCode::BadConversionToInteger => 9,
            TrapCode::UnreachableCodeReached => 10,
            TrapCode::UnalignedAtomic => 11,
        }
    }

    /// Decodes a numeric discriminant back into its trap code; fails on any
    /// value outside the twelve defined discriminants.
    pub fn from_discriminant(d: u32) -> (r: Option<TrapCode>)
        ensures
            r == from_discriminant_spec(d),
    {
        if d == 0 {
            Some(TrapCode::StackOverflow)
        } else if d == 1 {
            Some(TrapCode::HeapAccessOutOfBounds)
        } else if d == 2 {
            Some(TrapCode::HeapMisaligned)
        } else if d == 3 {
            Some(TrapCode::TableAccessOutOfBounds)
        } else if d == 4 {
            Some(TrapCode::OutOfBounds)
        } else if d == 5 {
            Some(TrapCode::IndirectCallToNull)
        } else if d == 6 {
            Some(TrapCode::BadSignature)
        } else if d == 7 {
            Some(TrapCode::IntegerOverflow)
        } else if d == 8 {
            Some(TrapCode::IntegerDivisionByZero)
        } else if d == 9 {
            Some(TrapCode::BadConversionToInteger)
        } else if d == 10 {
            Some(TrapCode::UnreachableCodeReached)
        } else if d == 11 {
            Some(TrapCode::UnalignedAtomic)
        } else {
            None
        }
    }
}

impl core::str::FromStr for TrapCode {
    type Err = ();

    fn from_str(s: &str) -> Result<TrapCode, ()> {
        TrapCode::from_tag(s)
    }
}

/// Round-trip law: parsing the tag of any code yields that code back.
pub proof fn lemma_tag_round_trip(c: TrapCode)
    ensures
        parse_spec(tag_spec(c)) == Ok::<TrapCode, ()>(c),
{
    reveal_strlit("stk_ovf");
    reveal_strlit("heap_get_oob");
    reveal_strlit("heap_misaligned");
    reveal_strlit("table_get_oob");
    reveal_strlit("oob");
    reveal_strlit("icall_null");
    reveal_strlit("bad_sig");
    reveal_strlit("int_ovf");
    reveal_strlit("int_divz");
    reveal_strlit("bad_toint");
    reveal_strlit("unreachable");
    reveal_strlit("unalign_atom");
    assert("stk_ovf"@.len() == 7);
    assert("heap_get_oob"@.len() == 12);
    assert("heap_misaligned"@.len() == 15);
    assert("table_get_oob"@.len() == 13);
    assert("oob"@.len() == 3);
    assert("icall_null"@.len() == 10);
    assert("bad_sig"@.len() == 7);
    assert("int_ovf"@.len() == 7);
    assert("int_divz"@.len() == 8);
    assert("bad_toint"@.len() == 9);
    assert("unreachable"@.len() == 11);
    assert("unalign_atom"@.len() == 12);
    match c {
        TrapCode::StackOverflow => {
            assert(parse_spec(tag_spec(c)) == Ok::<TrapCode, ()>(c));
        },
        TrapCode::HeapAccessOutOfBounds => {
            assert(parse_spec(tag_spec(c)) == Ok::<TrapCode, ()>(c));
        },
        TrapCode::HeapMisaligned => {
            assert(parse_spec(tag_spec(c)) == Ok::<TrapCode, ()>(c));
        },
        TrapCode::TableAccessOutOfBounds => {
            assert(parse_spec(tag_spec(c)) == Ok::<TrapCode, ()>(c));
        },
        TrapCode::OutOfBounds => {
            assert(parse_spec(tag_spec(c)) == Ok::<TrapCode, ()>(c));
        },
        TrapCode::IndirectCallToNull => {
            assert(parse_spec(tag_spec(c)) == Ok::<TrapCode, ()>(c));
        },
        TrapCode::BadSignature => {
            assert("bad_sig"@[0] != "stk_ovf"@[0]);
            assert(parse_spec(tag_spec(c)) == Ok::<TrapCode, ()>(c));
        },
        TrapCode::IntegerOverflow => {
            assert("int_ovf"@[0] != "stk_ovf"@[0]);
            assert("int_ovf"@[0] != "bad_sig"@[0]);
            assert(parse_spec(tag_spec(c)) == Ok::<TrapCode, ()>(c));
        },
        TrapCode::IntegerDivisionByZero => {
            assert(parse_spec(tag_spec(c)) == Ok::<TrapCode, ()>(c));
        },
        TrapCode::BadConversionToInteger => {
            assert(parse_spec(tag_spec(c)) == Ok::<TrapCode, ()>(c));
        },
        TrapCode::UnreachableCodeReached => {
            assert(parse_spec(tag_spec(c)) == Ok::<TrapCode, ()>(c));
        },
        TrapCode::UnalignedAtomic => {
            assert("unalign_atom"@[0] != "heap_get_oob"@[0]);
            assert(parse_spec(tag_spec(c)) == Ok::<TrapCode, ()>(c));
        },
    }
}

/// Tags are unique: two codes with the same tag are the same code.
pub proof fn lemma_tag_unique(a: TrapCode, b: TrapCode)
    ensures
        tag_spec(a) == tag_spec(b) ==> a == b,
{
    lemma_tag_round_trip(a);
    lemma_tag_round_trip(b);
}

/// Every tag is non-empty.
pub proof fn lemma_tag_nonempty(c: TrapCode)
    ensures
        tag_spec(c).len() > 0,
{
    reveal_strlit("stk_ovf");
    reveal_strlit("heap_get_oob");
    reveal_strlit("heap_misaligned");
    reveal_strlit("table_get_oob");
    reveal_strlit("oob");
    reveal_strlit("icall_null");
    reveal_strlit("bad_sig");
    reveal_strlit("int_ovf");
    reveal_strlit("int_divz");
    reveal_strlit("bad_toint");
    reveal_strlit("unreachable");
    reveal_strlit("unalign_atom");
}

/// Every message is non-empty, and no two codes share a message.
pub proof fn lemma_message_nonempty_unique(a: TrapCode, b: TrapCode)
    ensures
        message_spec(a).len() > 0,
        message_spec(a) == message_spec(b) ==> a == b,
{
    reveal_strlit("call stack exhausted");
    reveal_strlit("out of bounds memory access");
    reveal_strlit("misaligned heap");
    reveal_strlit("undefined element: out of bounds table access");
    reveal_strlit("out of bounds");
    reveal_strlit("uninitialized element");
    reveal_strlit("indirect call type mismatch");
    reveal_strlit("integer overflow");
    reveal_strlit("integer divide by zero");
    reveal_strlit("invalid conversion to integer");
    reveal_strlit("unreachable");
    reveal_strlit("unaligned atomic access");
    lemma_message_fingerprint(a);
    lemma_message_fingerprint(b);
}

/// Pins the length of each message, and the first character of the two
/// messages of equal length; together these distinguish all twelve
/// messages from one another.
proof fn lemma_message_fingerprint(c: TrapCode)
    ensures
        message_spec(c).len() > 0,
        c is StackOverflow ==> message_spec(c).len() == 20,
        c is HeapAccessOutOfBounds ==> message_spec(c).len() == 27 && message_spec(c)[0] == 'o',
        c is HeapMisaligned ==> message_spec(c).len() == 15,
        c is TableAccessOutOfBounds ==> message_spec(c).len() == 45,
        c is OutOfBounds ==> message_spec(c).len() == 13,
        c is IndirectCallToNull ==> message_spec(c).len() == 21,
        c is BadSignature ==> message_spec(c).len() == 27 && message_spec(c)[0] == 'i',
        c is IntegerOverflow ==> message_spec(c).len() == 16,
        c is IntegerDivisionByZero ==> message_spec(c).len() == 22,
        c is BadConversionToInteger ==> message_spec(c).len() == 29,
        c is UnreachableCodeReached ==> message_spec(c).len() == 11,
        c is UnalignedAtomic ==> message_spec(c).len() == 23,
{
    reveal_strlit("call stack exhausted");
    reveal_strlit("out of bounds memory access");
    reveal_strlit("misaligned heap");
    reveal_strlit("undefined element: out of bounds table access");
    reveal_strlit("out of bounds");
    reveal_strlit("uninitialized element");
    reveal_strlit("indirect call type mismatch");
    reveal_strlit("integer overflow");
    reveal_strlit("integer divide by zero");
    reveal_strlit("invalid conversion to integer");
    reveal_strlit("unreachable");
    reveal_strlit("unaligned atomic access");
    match c {
        TrapCode::StackOverflow => {
            assert(message_spec(c).len() == 20);
        },
        TrapCode::HeapAccessOutOfBounds => {
            assert(message_spec(c).len() == 27 && message_spec(c)[0] == 'o');
        },
        TrapCode::HeapMisaligned => {
            assert(message_spec(c).len() == 15);
        },
        TrapCode::TableAccessOutOfBounds => {
            assert(message_spec(c).len() == 45);
        },
        TrapCode::OutOfBounds => {
            assert(message_spec(c).len() == 13);
        },
        TrapCode::IndirectCallToNull => {
            assert(message_spec(c).len() == 21);
        },
        TrapCode::BadSignature => {
            assert(message_spec(c).len() == 27 && message_spec(c)[0] == 'i');
        },
        TrapCode::IntegerOverflow => {
            assert(message_spec(c).len() == 16);
        },
        TrapCode::IntegerDivisionByZero => {
            assert(message_spec(c).len() == 22);
        },
        TrapCode::BadConversionToInteger => {
            assert(message_spec(c).len() == 29);
        },
        TrapCode::UnreachableCodeReached => {
            assert(message_spec(c).len() == 11);
        },
        TrapCode::UnalignedAtomic => {
            assert(message_spec(c).len() == 23);
        },
    }
}

/// Parsing succeeds exactly on the defined tag set: the tag-to-code mapping
/// is total over the twelve tags and undefined for every other string.
pub proof fn lemma_parse_defined_exactly_on_tags(s: Seq<char>)
    ensures
        (parse_spec(s) is Ok) <==> (exists|c: TrapCode| tag_spec(c) == s),
{
    if parse_spec(s) is Ok {
        let c = parse_spec(s)->Ok_0;
        lemma_tag_round_trip(c);
        assert(tag_spec(c) == s);
    }
    if exists|c: TrapCode| tag_spec(c) == s {
        let c = choose|c: TrapCode| tag_spec(c) == s;
        lemma_tag_round_trip(c);
    }
}

/// Round-trip law of the numeric encoding: decoding the discriminant of any
/// code yields that code back.
pub proof fn lemma_discriminant_round_trip(c: TrapCode)
    ensures
        from_discriminant_spec(discriminant_spec(c)) == Some(c),
{
}

/// Discriminants are unique: two codes with the same discriminant are the
/// same code.
pub proof fn lemma_discriminant_unique(a: TrapCode, b: TrapCode)
    ensures
        discriminant_spec(a) == discriminant_spec(b) ==> a == b,
{
    lemma_discriminant_round_trip(a);
    lemma_discriminant_round_trip(b);
}

/// Decoding succeeds exactly on the twelve defined discriminants.
pub proof fn lemma_from_discriminant_defined(d: u32)
    ensures
        (from_discriminant_spec(d) is Some) <==> d <= 11,
{
}

} // verus!
