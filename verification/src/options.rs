//! The options that a field descriptor carries, one shape per family of field
//! types, and the policy that turns capability flags into them.

use crate::capability::{CapabilitySet, TypeTag};
use vstd::prelude::*;

verus! {

/// How the text of a field is cut into terms.
#[derive(Clone, Copy, Debug, PartialEq, Eq, Structural)]
pub enum Tokenizer {
    /// The whole text is one term: exact match only.
    Raw,
    /// The engine's default tokenizer.
    Default,
}

/// What the index records for each term.
#[derive(Clone, Copy, Debug, PartialEq, Eq, Structural)]
pub enum IndexRecordOption {
    /// The documents that hold the term.
    Basic,
    /// The documents, and in each the term's frequency and positions.
    WithFreqsAndPositions,
}

/// The text-indexing sub-options shared by `Text` and `Json` fields.
#[derive(Clone, Copy, Debug, PartialEq, Eq, Structural)]
pub struct TextIndexing {
    pub fieldnorms: bool,
    pub tokenizer: Tokenizer,
    pub record: IndexRecordOption,
}

/// Columnar storage of a text field. Unlike that of the other types it takes
/// an optional ordering key.
#[derive(Clone, Copy, Debug, PartialEq, Eq, Structural)]
pub enum TextFast {
    Off,
    On { ordering_key: Option<Tokenizer> },
}

/// The options of a field descriptor.
#[allow(inconsistent_fields)]
#[derive(Clone, Copy, Debug, PartialEq, Eq, Structural)]
pub enum FieldOptions {
    Text { indexing: TextIndexing, stored: bool, fast: TextFast, coerce: bool },
    Json { indexing: TextIndexing, stored: bool, fast: TextFast },
    Numeric { stored: bool, fast: bool, coerce: bool, indexed: bool, fieldnorms: bool },
    Bytes { stored: bool, fast: bool, indexed: bool, fieldnorms: bool },
    Facet { stored: bool },
    Date { stored: bool, fast: bool, indexed: bool, fieldnorms: bool },
    IpAddr { stored: bool, fast: bool, indexed: bool, fieldnorms: bool },
}

/// One setter call of the recipe that builds a field's options.
#[derive(Clone, Copy, Debug, PartialEq, Eq, Structural)]
pub enum OptionStep {
    Stored,
    /// Columnar storage, for every type but `Text` and `Json`.
    Fast,
    /// Columnar storage of `Text` and `Json`, with its ordering key.
    FastKeyed { ordering_key: Option<Tokenizer> },
    Coerce,
    Indexed,
    Fieldnorm,
}

/// The indexing policy of `Text` and `Json`: a tokenized field gets the default
/// tokenizer with frequencies and positions, any other the raw tokenizer with
/// the basic record; field norms follow `norm`.
pub open spec fn text_indexing(flags: CapabilitySet) -> TextIndexing {
    TextIndexing {
        fieldnorms: flags.norm,
        tokenizer: if flags.tokenized {
            Tokenizer::Default
        } else {
            Tokenizer::Raw
        },
        record: if flags.tokenized {
            IndexRecordOption::WithFreqsAndPositions
        } else {
            IndexRecordOption::Basic
        },
    }
}

/// A fast `Text` or `Json` field is keyed, and the key is left out.
pub open spec fn text_fast(flags: CapabilitySet) -> TextFast {
    if flags.fast {
        TextFast::On { ordering_key: None }
    } else {
        TextFast::Off
    }
}

/// The options of a field of type `tag` for which `flags` were requested.
pub open spec fn options_for(tag: TypeTag, flags: CapabilitySet) -> FieldOptions {
    match tag {
        TypeTag::Text => FieldOptions::Text {
            indexing: text_indexing(flags),
            stored: flags.stored,
            fast: text_fast(flags),
            coerce: flags.coerce,
        },
        TypeTag::Json => FieldOptions::Json {
            indexing: text_indexing(flags),
            stored: flags.stored,
            fast: text_fast(flags),
        },
        TypeTag::U64 | TypeTag::I64 | TypeTag::F64 | TypeTag::Bool => FieldOptions::Numeric {
            stored: flags.stored,
            fast: flags.fast,
            coerce: flags.coerce,
            indexed: flags.indexed,
            fieldnorms: flags.norm,
        },
        TypeTag::Bytes => FieldOptions::Bytes {
            stored: flags.stored,
            fast: flags.fast,
            indexed: flags.indexed,
            fieldnorms: flags.norm,
        },
        TypeTag::Facet => FieldOptions::Facet { stored: flags.stored },
        TypeTag::Date => FieldOptions::Date {
            stored: flags.stored,
            fast: flags.fast,
            indexed: flags.indexed,
            fieldnorms: flags.norm,
        },
        TypeTag::IpAddr => FieldOptions::IpAddr {
            stored: flags.stored,
            fast: flags.fast,
            indexed: flags.indexed,
            fieldnorms: flags.norm,
        },
    }
}

/// The options of a field of type `tag` that asks for nothing.
pub open spec fn default_options(tag: TypeTag) -> FieldOptions {
    options_for(tag, CapabilitySet::nothing())
}

/// `step` alone if `wanted`, else nothing.
pub open spec fn step_if(wanted: bool, step: OptionStep) -> Seq<OptionStep> {
    if wanted {
        seq![step]
    } else {
        Seq::empty()
    }
}

/// The keyed fast step of a text field, if it is fast.
pub open spec fn keyed_step(fast: TextFast) -> Seq<OptionStep> {
    match fast {
        TextFast::Off => Seq::empty(),
        TextFast::On { ordering_key } => seq![OptionStep::FastKeyed { ordering_key }],
    }
}

impl Tokenizer {
    /// The name under which the engine knows the tokenizer.
    pub open spec fn spec_name(self) -> Seq<char> {
        match self {
            Tokenizer::Raw => "raw"@,
            Tokenizer::Default => "default"@,
        }
    }

    /// The name under which the engine knows the tokenizer.
    pub fn name(&self) -> (name: &'static str)
        ensures
            name@ == self.spec_name(),
    {
        match self {
            Tokenizer::Raw => "raw",
            Tokenizer::Default => "default",
        }
    }
}

impl TextIndexing {
    /// Executable form of [`text_indexing`].
    pub fn from_flags(flags: CapabilitySet) -> (indexing: TextIndexing)
        ensures
            indexing == text_indexing(flags),
    {
        if flags.tokenized {
            TextIndexing {
                fieldnorms: flags.norm,
                tokenizer: Tokenizer::Default,
                record: IndexRecordOption::WithFreqsAndPositions,
            }
        } else {
            TextIndexing {
                fieldnorms: flags.norm,
                tokenizer: Tokenizer::Raw,
                record: IndexRecordOption::Basic,
            }
        }
    }
}

impl TextFast {
    /// Executable form of [`text_fast`].
    pub fn from_flags(flags: CapabilitySet) -> (fast: TextFast)
        ensures
            fast == text_fast(flags),
    {
        if flags.fast {
            TextFast::On { ordering_key: None }
        } else {
            TextFast::Off
        }
    }
}

impl FieldOptions {
    /// The options with every setter of the recipe left out: what the recipe
    /// starts from.
    pub open spec fn blank(self) -> FieldOptions {
        match self {
            FieldOptions::Text { indexing, .. } => FieldOptions::Text {
                indexing,
                stored: false,
                fast: TextFast::Off,
                coerce: false,
            },
            FieldOptions::Json { indexing, .. } => FieldOptions::Json {
                indexing,
                stored: false,
                fast: TextFast::Off,
            },
            FieldOptions::Numeric { .. } => FieldOptions::Numeric {
                stored: false,
                fast: false,
                coerce: false,
                indexed: false,
                fieldnorms: false,
            },
            FieldOptions::Bytes { .. } => FieldOptions::Bytes {
                stored: false,
                fast: false,
                indexed: false,
                fieldnorms: false,
            },
            FieldOptions::Facet { .. } => FieldOptions::Facet { stored: false },
            FieldOptions::Date { .. } => FieldOptions::Date {
                stored: false,
                fast: false,
                indexed: false,
                fieldnorms: false,
            },
            FieldOptions::IpAddr { .. } => FieldOptions::IpAddr {
                stored: false,
                fast: false,
                indexed: false,
                fieldnorms: false,
            },
        }
    }

    /// The options after one setter call. A setter that the options' family
    /// does not have leaves them as they are.
    pub open spec fn after(self, step: OptionStep) -> FieldOptions {
        match (self, step) {
            (FieldOptions::Text { indexing, fast, coerce, .. }, OptionStep::Stored) => {
                FieldOptions::Text { indexing, stored: true, fast, coerce }
            },
            (
                FieldOptions::Text { indexing, stored, coerce, .. },
                OptionStep::FastKeyed { ordering_key },
            ) => FieldOptions::Text { indexing, stored, fast: TextFast::On { ordering_key }, coerce },
            (FieldOptions::Text { indexing, stored, fast, .. }, OptionStep::Coerce) => {
                FieldOptions::Text { indexing, stored, fast, coerce: true }
            },
            (FieldOptions::Json { indexing, fast, .. }, OptionStep::Stored) => FieldOptions::Json {
                indexing,
                stored: true,
                fast,
            },
            (FieldOptions::Json { indexing, stored, .. }, OptionStep::FastKeyed { ordering_key }) => {
                FieldOptions::Json { indexing, stored, fast: TextFast::On { ordering_key } }
            },
            (
                FieldOptions::Numeric { fast, coerce, indexed, fieldnorms, .. },
                OptionStep::Stored,
            ) => FieldOptions::Numeric { stored: true, fast, coerce, indexed, fieldnorms },
            (
                FieldOptions::Numeric { stored, coerce, indexed, fieldnorms, .. },
                OptionStep::Fast,
            ) => FieldOptions::Numeric { stored, fast: true, coerce, indexed, fieldnorms },
            (
                FieldOptions::Numeric { stored, fast, indexed, fieldnorms, .. },
                OptionStep::Coerce,
            ) => FieldOptions::Numeric { stored, fast, coerce: true, indexed, fieldnorms },
            (
                FieldOptions::Numeric { stored, fast, coerce, fieldnorms, .. },
                OptionStep::Indexed,
            ) => FieldOptions::Numeric { stored, fast, coerce, indexed: true, fieldnorms },
            (
                FieldOptions::Numeric { stored, fast, coerce, indexed, .. },
                OptionStep::Fieldnorm,
            ) => FieldOptions::Numeric { stored, fast, coerce, indexed, fieldnorms: true },
            (FieldOptions::Bytes { fast, indexed, fieldnorms, .. }, OptionStep::Stored) => {
                FieldOptions::Bytes { stored: true, fast, indexed, fieldnorms }
            },
            (FieldOptions::Bytes { stored, indexed, fieldnorms, .. }, OptionStep::Fast) => {
                FieldOptions::Bytes { stored, fast: true, indexed, fieldnorms }
            },
            (FieldOptions::Bytes { stored, fast, fieldnorms, .. }, OptionStep::Indexed) => {
                FieldOptions::Bytes { stored, fast, indexed: true, fieldnorms }
            },
            (FieldOptions::Bytes { stored, fast, indexed, .. }, OptionStep::Fieldnorm) => {
                FieldOptions::Bytes { stored, fast, indexed, fieldnorms: true }
            },
            (FieldOptions::Facet { .. }, OptionStep::Stored) => FieldOptions::Facet {
                stored: true,
            },
            (FieldOptions::Date { fast, indexed, fieldnorms, .. }, OptionStep::Stored) => {
                FieldOptions::Date { stored: true, fast, indexed, fieldnorms }
            },
            (FieldOptions::Date { stored, indexed, fieldnorms, .. }, OptionStep::Fast) => {
                FieldOptions::Date { stored, fast: true, indexed, fieldnorms }
            },
            (FieldOptions::Date { stored, fast, fieldnorms, .. }, OptionStep::Indexed) => {
                FieldOptions::Date { stored, fast, indexed: true, fieldnorms }
            },
            (FieldOptions::Date { stored, fast, indexed, .. }, OptionStep::Fieldnorm) => {
                FieldOptions::Date { stored, fast, indexed, fieldnorms: true }
            },
            (FieldOptions::IpAddr { fast, indexed, fieldnorms, .. }, OptionStep::Stored) => {
                FieldOptions::IpAddr { stored: true, fast, indexed, fieldnorms }
            },
            (FieldOptions::IpAddr { stored, indexed, fieldnorms, .. }, OptionStep::Fast) => {
                FieldOptions::IpAddr { stored, fast: true, indexed, fieldnorms }
            },
            (FieldOptions::IpAddr { stored, fast, fieldnorms, .. }, OptionStep::Indexed) => {
                FieldOptions::IpAddr { stored, fast, indexed: true, fieldnorms }
            },
            (FieldOptions::IpAddr { stored, fast, indexed, .. }, OptionStep::Fieldnorm) => {
                FieldOptions::IpAddr { stored, fast, indexed, fieldnorms: true }
            },
            _ => self,
        }
    }

    /// The options after the setter calls of `steps`, first to last.
    pub open spec fn after_all(self, steps: Seq<OptionStep>) -> FieldOptions
        decreases steps.len(),
    {
        if steps.len() == 0 {
            self
        } else {
            self.after_all(steps.drop_last()).after(steps.last())
        }
    }

    /// The recipe of the options: the setters to call on the blank options,
    /// in their fixed order. Text: stored, fast, coerce. Json: stored, fast.
    /// Numeric: stored, fast, coerce, indexed, field norms. Bytes, dates and
    /// addresses: stored, fast, indexed, field norms. Facets: stored.
    pub open spec fn recipe(self) -> Seq<OptionStep> {
        match self {
            FieldOptions::Text { stored, fast, coerce, .. } => step_if(stored, OptionStep::Stored)
                + keyed_step(fast) + step_if(coerce, OptionStep::Coerce),
            FieldOptions::Json { stored, fast, .. } => step_if(stored, OptionStep::Stored)
                + keyed_step(fast),
            FieldOptions::Numeric { stored, fast, coerce, indexed, fieldnorms } => step_if(
                stored,
                OptionStep::Stored,
            ) + step_if(fast, OptionStep::Fast) + step_if(coerce, OptionStep::Coerce) + step_if(
                indexed,
                OptionStep::Indexed,
            ) + step_if(fieldnorms, OptionStep::Fieldnorm),
            FieldOptions::Bytes { stored, fast, indexed, fieldnorms }
            | FieldOptions::Date { stored, fast, indexed, fieldnorms }
            | FieldOptions::IpAddr { stored, fast, indexed, fieldnorms } => step_if(
                stored,
                OptionStep::Stored,
            ) + step_if(fast, OptionStep::Fast) + step_if(indexed, OptionStep::Indexed) + step_if(
                fieldnorms,
                OptionStep::Fieldnorm,
            ),
            FieldOptions::Facet { stored } => step_if(stored, OptionStep::Stored),
        }
    }

    /// The text-indexing sub-options, for the two families that have them.
    pub open spec fn spec_indexing(self) -> Option<TextIndexing> {
        match self {
            FieldOptions::Text { indexing, .. } | FieldOptions::Json { indexing, .. } => Some(
                indexing,
            ),
            _ => None,
        }
    }

    /// Executable form of [`options_for`].
    pub fn build(tag: TypeTag, flags: CapabilitySet) -> (options: FieldOptions)
        ensures
            options == options_for(tag, flags),
    {
        match tag {
            TypeTag::Text => FieldOptions::Text {
                indexing: TextIndexing::from_flags(flags),
                stored: flags.stored,
                fast: TextFast::from_flags(flags),
                coerce: flags.coerce,
            },
            TypeTag::Json => FieldOptions::Json {
                indexing: TextIndexing::from_flags(flags),
                stored: flags.stored,
                fast: TextFast::from_flags(flags),
            },
            TypeTag::U64 | TypeTag::I64 | TypeTag::F64 | TypeTag::Bool => FieldOptions::Numeric {
                stored: flags.stored,
                fast: flags.fast,
                coerce: flags.coerce,
                indexed: flags.indexed,
                fieldnorms: flags.norm,
            },
            TypeTag::Bytes => FieldOptions::Bytes {
                stored: flags.stored,
                fast: flags.fast,
                indexed: flags.indexed,
                fieldnorms: flags.norm,
            },
            TypeTag::Facet => FieldOptions::Facet { stored: flags.stored },
            TypeTag::Date => FieldOptions::Date {
                stored: flags.stored,
                fast: flags.fast,
                indexed: flags.indexed,
                fieldnorms: flags.norm,
            },
            TypeTag::IpAddr => FieldOptions::IpAddr {
                stored: flags.stored,
                fast: flags.fast,
                indexed: flags.indexed,
                fieldnorms: flags.norm,
            },
        }
    }

    /// The options of a field of type `tag` that asks for nothing: what every
    /// unset flag defaults to.
    pub fn default_for(tag: TypeTag) -> (options: FieldOptions)
        ensures
            options == default_options(tag),
    {
        FieldOptions::build(tag, CapabilitySet::none())
    }

    /// The text-indexing sub-options, for the two families that have them.
    pub fn indexing(&self) -> (indexing: Option<TextIndexing>)
        ensures
            indexing == self.spec_indexing(),
    {
        match self {
            FieldOptions::Text { indexing, .. } => Some(*indexing),
            FieldOptions::Json { indexing, .. } => Some(*indexing),
            _ => None,
        }
    }

    /// The setters to call on the blank options, in order.
    pub fn steps(&self) -> (steps: Vec<OptionStep>)
        ensures
            steps@ == self.recipe(),
    {
        let mut steps: Vec<OptionStep> = Vec::new();
        match *self {
            FieldOptions::Text { stored, fast, coerce, .. } => {
                push_if(&mut steps, stored, OptionStep::Stored);
                push_keyed(&mut steps, fast);
                push_if(&mut steps, coerce, OptionStep::Coerce);
            },
            FieldOptions::Json { stored, fast, .. } => {
                push_if(&mut steps, stored, OptionStep::Stored);
                push_keyed(&mut steps, fast);
            },
            FieldOptions::Numeric { stored, fast, coerce, indexed, fieldnorms } => {
                push_if(&mut steps, stored, OptionStep::Stored);
                push_if(&mut steps, fast, OptionStep::Fast);
                push_if(&mut steps, coerce, OptionStep::Coerce);
                push_if(&mut steps, indexed, OptionStep::Indexed);
                push_if(&mut steps, fieldnorms, OptionStep::Fieldnorm);
            },
            FieldOptions::Bytes { stored, fast, indexed, fieldnorms }
            | FieldOptions::Date { stored, fast, indexed, fieldnorms }
            | FieldOptions::IpAddr { stored, fast, indexed, fieldnorms } => {
                push_if(&mut steps, stored, OptionStep::Stored);
                push_if(&mut steps, fast, OptionStep::Fast);
                push_if(&mut steps, indexed, OptionStep::Indexed);
                push_if(&mut steps, fieldnorms, OptionStep::Fieldnorm);
            },
            FieldOptions::Facet { stored } => {
                push_if(&mut steps, stored, OptionStep::Stored);
            },
        }
        steps
    }
}

fn push_if(steps: &mut Vec<OptionStep>, wanted: bool, step: OptionStep)
    ensures
        final(steps)@ == old(steps)@ + step_if(wanted, step),
{
    if wanted {
        steps.push(step);
    }
}

fn push_keyed(steps: &mut Vec<OptionStep>, fast: TextFast)
    ensures
        final(steps)@ == old(steps)@ + keyed_step(fast),
{
    match fast {
        TextFast::Off => {},
        TextFast::On { ordering_key } => {
            steps.push(OptionStep::FastKeyed { ordering_key });
        },
    }
}

/// Calling the setters of two lists one after the other is calling those of
/// the joined list.
pub proof fn lemma_after_all_joined(
    options: FieldOptions,
    front: Seq<OptionStep>,
    back: Seq<OptionStep>,
)
    ensures
        options.after_all(front + back) == options.after_all(front).after_all(back),
    decreases back.len(),
{
    if back.len() > 0 {
        assert((front + back).drop_last() =~= front + back.drop_last());
        lemma_after_all_joined(options, front, back.drop_last());
    }
}

/// An optional setter does what its setter does, if it is wanted.
pub proof fn lemma_after_step_if(options: FieldOptions, wanted: bool, step: OptionStep)
    ensures
        options.after_all(step_if(wanted, step)) == if wanted {
            options.after(step)
        } else {
            options
        },
{
    let steps = step_if(wanted, step);
    if wanted {
        assert(options.after_all(steps.drop_last()) == options);
    }
}

/// The keyed fast step does what its setter does, if the field is fast.
pub proof fn lemma_after_keyed_step(options: FieldOptions, fast: TextFast)
    ensures
        options.after_all(keyed_step(fast)) == match fast {
            TextFast::Off => options,
            TextFast::On { ordering_key } => options.after(OptionStep::FastKeyed { ordering_key }),
        },
{
    let steps = keyed_step(fast);
    if fast is On {
        assert(steps.drop_last().len() == 0);
        assert(options.after_all(steps.drop_last()) == options);
    }
}

proof fn lemma_rebuild_text(indexing: TextIndexing, stored: bool, fast: TextFast, coerce: bool)
    ensures
        (FieldOptions::Text { indexing, stored, fast, coerce }).blank().after_all(
            (FieldOptions::Text { indexing, stored, fast, coerce }).recipe(),
        ) == (FieldOptions::Text { indexing, stored, fast, coerce }),
{
    let blank = FieldOptions::Text { indexing, stored: false, fast: TextFast::Off, coerce: false };
    let first = step_if(stored, OptionStep::Stored);
    let second = keyed_step(fast);
    let third = step_if(coerce, OptionStep::Coerce);
    let one = blank.after_all(first);
    let two = one.after_all(second);
    lemma_after_step_if(blank, stored, OptionStep::Stored);
    lemma_after_keyed_step(one, fast);
    lemma_after_step_if(two, coerce, OptionStep::Coerce);
    lemma_after_all_joined(blank, first, second);
    lemma_after_all_joined(blank, first + second, third);
}

proof fn lemma_rebuild_json(indexing: TextIndexing, stored: bool, fast: TextFast)
    ensures
        (FieldOptions::Json { indexing, stored, fast }).blank().after_all(
            (FieldOptions::Json { indexing, stored, fast }).recipe(),
        ) == (FieldOptions::Json { indexing, stored, fast }),
{
    let blank = FieldOptions::Json { indexing, stored: false, fast: TextFast::Off };
    let first = step_if(stored, OptionStep::Stored);
    let second = keyed_step(fast);
    let one = blank.after_all(first);
    lemma_after_step_if(blank, stored, OptionStep::Stored);
    lemma_after_keyed_step(one, fast);
    lemma_after_all_joined(blank, first, second);
}

proof fn lemma_rebuild_numeric(
    stored: bool,
    fast: bool,
    coerce: bool,
    indexed: bool,
    fieldnorms: bool,
)
    ensures
        (FieldOptions::Numeric { stored, fast, coerce, indexed, fieldnorms }).blank().after_all(
            (FieldOptions::Numeric { stored, fast, coerce, indexed, fieldnorms }).recipe(),
        ) == (FieldOptions::Numeric { stored, fast, coerce, indexed, fieldnorms }),
{
    let blank = FieldOptions::Numeric {
        stored: false,
        fast: false,
        coerce: false,
        indexed: false,
        fieldnorms: false,
    };
    let first = step_if(stored, OptionStep::Stored);
    let second = step_if(fast, OptionStep::Fast);
    let third = step_if(coerce, OptionStep::Coerce);
    let fourth = step_if(indexed, OptionStep::Indexed);
    let fifth = step_if(fieldnorms, OptionStep::Fieldnorm);
    let one = blank.after_all(first);
    let two = one.after_all(second);
    let three = two.after_all(third);
    let four = three.after_all(fourth);
    lemma_after_step_if(blank, stored, OptionStep::Stored);
    lemma_after_step_if(one, fast, OptionStep::Fast);
    lemma_after_step_if(two, coerce, OptionStep::Coerce);
    lemma_after_step_if(three, indexed, OptionStep::Indexed);
    lemma_after_step_if(four, fieldnorms, OptionStep::Fieldnorm);
    lemma_after_all_joined(blank, first, second);
    lemma_after_all_joined(blank, first + second, third);
    lemma_after_all_joined(blank, first + second + third, fourth);
    lemma_after_all_joined(blank, first + second + third + fourth, fifth);
}

proof fn lemma_rebuild_plain(options: FieldOptions)
    requires
        options is Bytes || options is Date || options is IpAddr,
    ensures
        options.blank().after_all(options.recipe()) == options,
{
    let blank = options.blank();
    let (stored, fast, indexed, fieldnorms) = match options {
        FieldOptions::Bytes { stored, fast, indexed, fieldnorms }
        | FieldOptions::Date { stored, fast, indexed, fieldnorms }
        | FieldOptions::IpAddr { stored, fast, indexed, fieldnorms } => (
            stored,
            fast,
            indexed,
            fieldnorms,
        ),
        _ => (false, false, false, false),
    };
    let first = step_if(stored, OptionStep::Stored);
    let second = step_if(fast, OptionStep::Fast);
    let third = step_if(indexed, OptionStep::Indexed);
    let fourth = step_if(fieldnorms, OptionStep::Fieldnorm);
    let one = blank.after_all(first);
    let two = one.after_all(second);
    let three = two.after_all(third);
    lemma_after_step_if(blank, stored, OptionStep::Stored);
    lemma_after_step_if(one, fast, OptionStep::Fast);
    lemma_after_step_if(two, indexed, OptionStep::Indexed);
    lemma_after_step_if(three, fieldnorms, OptionStep::Fieldnorm);
    lemma_after_all_joined(blank, first, second);
    lemma_after_all_joined(blank, first + second, third);
    lemma_after_all_joined(blank, first + second + third, fourth);
}

/// The recipe of a field's options rebuilds them: its setters, called in
/// order on the blank options, give the options.
pub proof fn recipe_rebuilds_options(options: FieldOptions)
    ensures
        options.blank().after_all(options.recipe()) == options,
{
    match options {
        FieldOptions::Text { indexing, stored, fast, coerce } => {
            lemma_rebuild_text(indexing, stored, fast, coerce);
        },
        FieldOptions::Json { indexing, stored, fast } => {
            lemma_rebuild_json(indexing, stored, fast);
        },
        FieldOptions::Numeric { stored, fast, coerce, indexed, fieldnorms } => {
            lemma_rebuild_numeric(stored, fast, coerce, indexed, fieldnorms);
        },
        FieldOptions::Bytes { .. } | FieldOptions::Date { .. } | FieldOptions::IpAddr { .. } => {
            lemma_rebuild_plain(options);
        },
        FieldOptions::Facet { stored } => {
            lemma_after_step_if(options.blank(), stored, OptionStep::Stored);
        },
    }
}

/// The blank options of a field are those of the field with no flag that
/// takes a setter: the recipe starts from what the field has by default.
pub proof fn blank_is_unflagged(tag: TypeTag, flags: CapabilitySet)
    ensures
        options_for(tag, flags).blank() == options_for(
            tag,
            CapabilitySet {
                fast: false,
                stored: false,
                indexed: false,
                coerce: false,
                norm: if tag == TypeTag::Text || tag == TypeTag::Json {
                    flags.norm
                } else {
                    false
                },
                tokenized: flags.tokenized,
            },
        ),
{
}

} // verus!
