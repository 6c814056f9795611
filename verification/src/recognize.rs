//! Recognition of declared types: from the text of a field's type, as it is
//! written in the record, to the tag of the closed set that stands for it.
//!
//! The text is read as a Rust type and compared with the ten types of the
//! catalogue, so spacing does not matter: `Vec < u8 >` is `Vec<u8>`.
//!
//! Only short texts of plain characters are read: letters, digits, `_`, `<`,
//! `>`, `,` and white space. A catalogue type is never written otherwise, and
//! on such a text every reader of Rust tokens cuts the same tokens. Comments,
//! white space beyond ASCII, a leading `#!` are not read alike everywhere.

use crate::capability::TypeTag;
use vstd::prelude::*;
use vstd::string::StrSliceExecFns;

verus! {

/// The longest type text, in characters, that is read at all. A longer text is
/// no type of the catalogue, whatever it says. The types of the catalogue
/// take 22 characters at most, with a space around every token.
pub const MAX_TYPE_TEXT: usize = 32;

/// The number of types in the catalogue.
pub const CATALOGUE_LEN: usize = 10;

/// Whether two texts, read as Rust types by `syn`, are the same type. It is
/// what [`recognize`] goes by, and nothing else is stated of it.
pub uninterp spec fn types_agree(declared: Seq<char>, known: Seq<char>) -> bool;

/// A character that a catalogue type can be written with: a letter, a digit,
/// `_`, `<`, `>`, `,`, a space, a tab or a line end.
pub open spec fn plain(c: char) -> bool {
    ||| 'a' <= c <= 'z'
    ||| 'A' <= c <= 'Z'
    ||| '0' <= c <= '9'
    ||| c == '_'
    ||| c == '<'
    ||| c == '>'
    ||| c == ','
    ||| c == ' '
    ||| c == '\t'
    ||| c == '\n'
    ||| c == '\r'
}

/// A text that is read at all: plain characters, and no more of them than
/// [`MAX_TYPE_TEXT`].
pub open spec fn readable(text: Seq<char>) -> bool {
    &&& text.len() <= MAX_TYPE_TEXT
    &&& forall|i: int| 0 <= i < text.len() ==> plain(#[trigger] text[i])
}

/// The tags in the order in which a declared type is tried against them.
pub open spec fn catalogue() -> Seq<TypeTag> {
    seq![
        TypeTag::Text,
        TypeTag::Json,
        TypeTag::U64,
        TypeTag::I64,
        TypeTag::F64,
        TypeTag::Bool,
        TypeTag::Bytes,
        TypeTag::Facet,
        TypeTag::Date,
        TypeTag::IpAddr,
    ]
}

impl TypeTag {
    /// The Rust type, as text, that a field declares to get this tag.
    pub open spec fn spec_rust_type(self) -> Seq<char> {
        match self {
            TypeTag::Text => "String"@,
            TypeTag::Json => "Map<String, Value>"@,
            TypeTag::U64 => "u64"@,
            TypeTag::I64 => "i64"@,
            TypeTag::F64 => "f64"@,
            TypeTag::Bool => "bool"@,
            TypeTag::Bytes => "Vec<u8>"@,
            TypeTag::Facet => "Facet"@,
            TypeTag::Date => "DateTime"@,
            TypeTag::IpAddr => "Ipv6Addr"@,
        }
    }

    /// The Rust type, as text, that a field declares to get this tag.
    pub fn rust_type(&self) -> (text: &'static str)
        ensures
            text@ == self.spec_rust_type(),
            readable(text@),
    {
        proof {
            reveal_strlit("String");
            reveal_strlit("Map<String, Value>");
            reveal_strlit("u64");
            reveal_strlit("i64");
            reveal_strlit("f64");
            reveal_strlit("bool");
            reveal_strlit("Vec<u8>");
            reveal_strlit("Facet");
            reveal_strlit("DateTime");
            reveal_strlit("Ipv6Addr");
        }
        match self {
            TypeTag::Text => "String",
            TypeTag::Json => "Map<String, Value>",
            TypeTag::U64 => "u64",
            TypeTag::I64 => "i64",
            TypeTag::F64 => "f64",
            TypeTag::Bool => "bool",
            TypeTag::Bytes => "Vec<u8>",
            TypeTag::Facet => "Facet",
            TypeTag::Date => "DateTime",
            TypeTag::IpAddr => "Ipv6Addr",
        }
    }

    /// The tag at `position` of the catalogue.
    pub fn at(position: usize) -> (tag: Option<TypeTag>)
        ensures
            tag == if position < CATALOGUE_LEN {
                Some(catalogue()[position as int])
            } else {
                None
            },
    {
        match position {
            0 => Some(TypeTag::Text),
            1 => Some(TypeTag::Json),
            2 => Some(TypeTag::U64),
            3 => Some(TypeTag::I64),
            4 => Some(TypeTag::F64),
            5 => Some(TypeTag::Bool),
            6 => Some(TypeTag::Bytes),
            7 => Some(TypeTag::Facet),
            8 => Some(TypeTag::Date),
            9 => Some(TypeTag::IpAddr),
            _ => None,
        }
    }
}

/// `position` is that of the first agreement among the first ten.
pub open spec fn is_first_agreement(agreements: Seq<bool>, position: int) -> bool {
    &&& 0 <= position < agreements.len()
    &&& position < CATALOGUE_LEN
    &&& agreements[position]
    &&& forall|i: int| 0 <= i < position ==> !#[trigger] agreements[i]
}

/// The tag that a list of agreements selects: that of the first agreement,
/// where `agreements[i]` says whether the declared type is the type at
/// position `i` of the catalogue.
pub open spec fn selected(agreements: Seq<bool>) -> Option<TypeTag> {
    if exists|position: int| is_first_agreement(agreements, position) {
        Some(catalogue()[choose|position: int| is_first_agreement(agreements, position)])
    } else {
        None
    }
}

/// How a declared type compares with each type of the catalogue.
pub open spec fn agreements_of(type_text: Seq<char>) -> Seq<bool> {
    Seq::new(
        CATALOGUE_LEN as nat,
        |i: int| types_agree(type_text, catalogue()[i].spec_rust_type()),
    )
}

/// The tag of a declared type: that of the first type of the catalogue that it
/// is the same as, if it is read at all and there is one.
pub open spec fn recognized(type_text: Seq<char>) -> Option<TypeTag> {
    if readable(type_text) {
        selected(agreements_of(type_text))
    } else {
        None
    }
}

/// Reads both texts with `syn::parse_str::<syn::Type>` and compares the two
/// types with `==`, which looks at their structure and not at spans or
/// spacing. The answer is `true` only if both texts are read as types and the
/// types are equal. It depends on the two texts alone, and is given the name
/// [`types_agree`]; nothing more is claimed of it.
///
/// The texts are kept short because the reader descends once for each level
/// of nesting, and a text of a hundred characters can nest deeper than a
/// thread's stack allows. They are kept to plain characters because inside a
/// procedural macro the compiler cuts the text into tokens and elsewhere
/// `proc_macro2` does: on identifiers, `<`, `>`, `,` and ASCII white space
/// the two cut alike.
#[verifier::external_body]
fn same_type(declared: &str, known: &str) -> (same: bool)
    requires
        readable(declared@),
        readable(known@),
    ensures
        same == types_agree(declared@, known@),
{
    match (syn::parse_str::<syn::Type>(declared), syn::parse_str::<syn::Type>(known)) {
        (Ok(declared_type), Ok(known_type)) => declared_type == known_type,
        _ => false,
    }
}

/// Executable form of [`plain`].
pub fn is_plain(c: char) -> (plain_char: bool)
    ensures
        plain_char == plain(c),
{
    ('a' <= c && c <= 'z') || ('A' <= c && c <= 'Z') || ('0' <= c && c <= '9') || c == '_' || c
        == '<' || c == '>' || c == ',' || c == ' ' || c == '\t' || c == '\n' || c == '\r'
}

/// Whether a text is read at all.
pub fn is_readable(text: &str) -> (read: bool)
    ensures
        read == readable(text@),
{
    if !text.is_ascii() {
        proof {
            let i = choose|i: int|
                0 <= i < text@.len() && !('\0' <= #[trigger] text@[i] <= '\u{7f}');
            assert(!plain(text@[i]));
        }
        return false;
    }
    let count = text.unicode_len();
    if count > MAX_TYPE_TEXT {
        return false;
    }
    let mut i: usize = 0;
    while i < count
        invariant
            i <= count == text@.len(),
            text.is_ascii(),
            forall|j: int| 0 <= j < i ==> plain(#[trigger] text@[j]),
        decreases count - i,
    {
        if !is_plain(text.get_ascii(i) as char) {
            return false;
        }
        i += 1;
    }
    true
}

/// Selects the tag from how the declared type compares with each type of the
/// catalogue: the first agreement wins. Entries beyond the tenth are not
/// looked at.
pub fn select(agreements: &Vec<bool>) -> (tag: Option<TypeTag>)
    ensures
        tag == selected(agreements@),
{
    let mut i: usize = 0;
    while i < agreements.len() && i < CATALOGUE_LEN
        invariant
            i <= agreements@.len(),
            i <= CATALOGUE_LEN,
            forall|j: int| 0 <= j < i ==> !#[trigger] agreements@[j],
        decreases agreements@.len() - i,
    {
        if agreements[i] {
            proof {
                lemma_first_agreement_is(agreements@, i as int);
            }
            return TypeTag::at(i);
        }
        i += 1;
    }
    None
}

/// There is at most one first agreement.
pub proof fn lemma_first_agreement_is(agreements: Seq<bool>, position: int)
    requires
        is_first_agreement(agreements, position),
    ensures
        selected(agreements) == Some(catalogue()[position]),
{
}

/// Recognizes a declared type.
///
/// The text is compared, as a type, with each type of the catalogue in turn:
/// `String`, `Map<String, Value>`, `u64`, `i64`, `f64`, `bool`, `Vec<u8>`,
/// `Facet`, `DateTime`, `Ipv6Addr`. `None` says that the declared type is
/// outside the closed set. So is every text of more than
/// [`MAX_TYPE_TEXT`] characters, and every text with a character that no
/// catalogue type is written with.
pub fn recognize(type_text: &str) -> (tag: Option<TypeTag>)
    ensures
        tag == recognized(type_text@),
{
    if !is_readable(type_text) {
        return None;
    }
    let mut agreements: Vec<bool> = Vec::new();
    let mut i: usize = 0;
    while i < CATALOGUE_LEN
        invariant
            i <= CATALOGUE_LEN,
            readable(type_text@),
            agreements@.len() == i,
            forall|j: int|
                0 <= j < i ==> (#[trigger] agreements@[j]) == agreements_of(type_text@)[j],
        decreases CATALOGUE_LEN - i,
    {
        if let Some(tag) = TypeTag::at(i) {
            agreements.push(same_type(type_text, tag.rust_type()));
        }
        i += 1;
    }
    assert(agreements@ =~= agreements_of(type_text@));
    select(&agreements)
}

} // verus!
