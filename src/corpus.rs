use vstd::prelude::*;

verus! {

/// Probabilities and rolls are fixed-point fractions of this scale: the value
/// `p` stands for `p / PROB_SCALE`, so `PROB_SCALE` is certainty.
pub const PROB_SCALE: u32 = 1000000;

/// Line terminator byte.
pub const NEWLINE: u8 = 10;

/// First letter a line can be made of (`a`).
pub const FIRST_LETTER: u8 = 97;

/// Bound, exclusive, of the letters a line can be made of (`z`).
pub const LETTER_END: u8 = 122;

/// What drives one corpus generation.
pub struct GeneratorParameters {
    /// Number of source lines.
    pub length: usize,
    /// Shortest line length, inclusive.
    pub line_length_lower: usize,
    /// Longest line length, exclusive.
    pub line_length_upper: usize,
    pub prob_duplicate: u32,
    pub prob_delete: u32,
    pub prob_substitute: u32,
}

impl GeneratorParameters {
    /// A non-empty line length range and probabilities within `[0, 1]`.
    pub open spec fn wf(&self) -> bool {
        &&& self.line_length_lower < self.line_length_upper
        &&& self.prob_duplicate <= PROB_SCALE
        &&& self.prob_delete <= PROB_SCALE
        &&& self.prob_substitute <= PROB_SCALE
    }
}

/// The random values drawn for one logical line: its letter, its length and
/// the three rolls that decide what the target receives.
#[derive(Clone, Copy)]
pub struct LineDraw {
    pub letter: u8,
    pub length: usize,
    pub dup_roll: u32,
    pub sub_roll: u32,
    pub del_roll: u32,
}

/// A draw that the generator can make under `p`.
pub open spec fn draw_valid(p: GeneratorParameters, d: LineDraw) -> bool {
    &&& FIRST_LETTER <= d.letter < LETTER_END
    &&& p.line_length_lower <= d.length < p.line_length_upper
    &&& d.dup_roll < PROB_SCALE
    &&& d.sub_roll < PROB_SCALE
    &&& d.del_roll < PROB_SCALE
}

pub open spec fn draws_valid(p: GeneratorParameters, ds: Seq<LineDraw>) -> bool {
    forall|i: int| 0 <= i < ds.len() ==> draw_valid(p, #[trigger] ds[i])
}

/// The effect of one source line on the target.
///
/// `Substitute` keeps the line unchanged, exactly as `Keep` does: the name is
/// historical and no content is altered.
#[derive(PartialEq, Eq, Structural, Clone, Copy, Debug)]
pub enum Edit {
    Duplicate,
    Substitute,
    Keep,
    Delete,
}

/// The edit chosen for a draw, by precedence: duplicate, then substitute, then
/// keep; a line that none of them claims is deleted.
pub open spec fn edit_of(p: GeneratorParameters, d: LineDraw) -> Edit {
    if d.dup_roll < p.prob_duplicate {
        Edit::Duplicate
    } else if d.sub_roll < p.prob_substitute {
        Edit::Substitute
    } else if d.del_roll > p.prob_delete {
        Edit::Keep
    } else {
        Edit::Delete
    }
}

/// The content of a line: its letter repeated `length` times.
pub open spec fn line_content(d: LineDraw) -> Seq<u8> {
    Seq::new(d.length as nat, |_i: int| d.letter)
}

/// A line with its terminator.
pub open spec fn line_text(d: LineDraw) -> Seq<u8> {
    line_content(d).push(NEWLINE)
}

/// What the target receives for one draw.
pub open spec fn target_piece(p: GeneratorParameters, d: LineDraw) -> Seq<u8> {
    match edit_of(p, d) {
        Edit::Duplicate => line_text(d) + line_text(d),
        Edit::Substitute => line_text(d),
        Edit::Keep => line_text(d),
        Edit::Delete => Seq::empty(),
    }
}

/// The source file: every drawn line, in order.
pub open spec fn source_text(ds: Seq<LineDraw>) -> Seq<u8>
    decreases ds.len(),
{
    if ds.len() == 0 {
        Seq::empty()
    } else {
        source_text(ds.drop_last()) + line_text(ds.last())
    }
}

/// The target file: the piece of every drawn line, in order.
pub open spec fn target_text(p: GeneratorParameters, ds: Seq<LineDraw>) -> Seq<u8>
    decreases ds.len(),
{
    if ds.len() == 0 {
        Seq::empty()
    } else {
        target_text(p, ds.drop_last()) + target_piece(p, ds.last())
    }
}

/// Number of lines in a text: the number of terminator bytes it holds.
pub open spec fn line_count(t: Seq<u8>) -> nat
    decreases t.len(),
{
    if t.len() == 0 {
        0
    } else {
        line_count(t.drop_last()) + if t.last() == NEWLINE {
            1nat
        } else {
            0nat
        }
    }
}

proof fn lemma_line_count_concat(a: Seq<u8>, b: Seq<u8>)
    ensures
        line_count(a + b) == line_count(a) + line_count(b),
    decreases b.len(),
{
    if b.len() > 0 {
        assert((a + b).drop_last() =~= a + b.drop_last());
        lemma_line_count_concat(a, b.drop_last());
    } else {
        assert(a + b =~= a);
    }
}

proof fn lemma_line_count_none(t: Seq<u8>)
    requires
        forall|i: int| 0 <= i < t.len() ==> t[i] != NEWLINE,
    ensures
        line_count(t) == 0,
    decreases t.len(),
{
    if t.len() > 0 {
        lemma_line_count_none(t.drop_last());
    }
}

proof fn lemma_line_text_one_line(d: LineDraw)
    requires
        d.letter != NEWLINE,
    ensures
        line_count(line_text(d)) == 1,
{
    lemma_line_count_none(line_content(d));
    assert(line_text(d).drop_last() =~= line_content(d));
}

/// The source text holds exactly one line per draw.
pub proof fn lemma_source_line_count(p: GeneratorParameters, ds: Seq<LineDraw>)
    requires
        draws_valid(p, ds),
    ensures
        line_count(source_text(ds)) == ds.len(),
    decreases ds.len(),
{
    if ds.len() > 0 {
        let rest = ds.drop_last();
        assert(draw_valid(p, ds[ds.len() - 1]));
        assert forall|i: int| 0 <= i < rest.len() implies draw_valid(p, #[trigger] rest[i]) by {
            assert(rest[i] == ds[i]);
        }
        lemma_source_line_count(p, rest);
        lemma_line_count_concat(source_text(rest), line_text(ds.last()));
        lemma_line_text_one_line(ds.last());
    }
}

/// A line whose duplicate roll falls under the duplicate probability appears
/// twice in a row in the target, right after what the earlier lines produced.
pub proof fn lemma_duplicate_consecutive(p: GeneratorParameters, ds: Seq<LineDraw>, d: LineDraw)
    requires
        d.dup_roll < p.prob_duplicate,
    ensures
        target_text(p, ds.push(d)) == target_text(p, ds) + line_text(d) + line_text(d),
{
    assert(ds.push(d).drop_last() =~= ds);
    assert(target_text(p, ds) + (line_text(d) + line_text(d)) =~= target_text(p, ds) + line_text(
        d,
    ) + line_text(d));
}

/// With certain duplication every line reaches the target twice, so the
/// target holds twice as many lines as there are draws.
pub proof fn lemma_certain_duplicate_doubles(p: GeneratorParameters, ds: Seq<LineDraw>)
    requires
        p.prob_duplicate == PROB_SCALE,
        draws_valid(p, ds),
    ensures
        line_count(target_text(p, ds)) == 2 * ds.len(),
    decreases ds.len(),
{
    if ds.len() > 0 {
        let rest = ds.drop_last();
        let d = ds.last();
        assert(draw_valid(p, ds[ds.len() - 1]));
        assert forall|i: int| 0 <= i < rest.len() implies draw_valid(p, #[trigger] rest[i]) by {
            assert(rest[i] == ds[i]);
        }
        lemma_certain_duplicate_doubles(p, rest);
        lemma_line_text_one_line(d);
        lemma_line_count_concat(line_text(d), line_text(d));
        lemma_line_count_concat(target_text(p, rest), line_text(d) + line_text(d));
    }
}

/// With no duplication, no substitution and certain deletion, every line is
/// deleted and the target is empty.
pub proof fn lemma_certain_delete_empties(p: GeneratorParameters, ds: Seq<LineDraw>)
    requires
        p.prob_duplicate == 0,
        p.prob_substitute == 0,
        p.prob_delete == PROB_SCALE,
        draws_valid(p, ds),
    ensures
        target_text(p, ds) == Seq::<u8>::empty(),
    decreases ds.len(),
{
    if ds.len() > 0 {
        let rest = ds.drop_last();
        assert(draw_valid(p, ds[ds.len() - 1]));
        assert forall|i: int| 0 <= i < rest.len() implies draw_valid(p, #[trigger] rest[i]) by {
            assert(rest[i] == ds[i]);
        }
        lemma_certain_delete_empties(p, rest);
        assert(target_text(p, ds) =~= Seq::<u8>::empty());
    }
}

/// Generation is a function of the parameters and the draws: the same draws
/// give the same file pair, byte for byte.
pub proof fn lemma_same_draws_same_corpus(
    p: GeneratorParameters,
    ds1: Seq<LineDraw>,
    ds2: Seq<LineDraw>,
)
    requires
        ds1 == ds2,
    ensures
        source_text(ds1) == source_text(ds2),
        target_text(p, ds1) == target_text(p, ds2),
{
}

/// A generated pair of files, as bytes.
pub struct Corpus {
    pub source: Vec<u8>,
    pub target: Vec<u8>,
}

/// Decides what the target receives for one draw.
pub fn decide_edit(p: &GeneratorParameters, d: &LineDraw) -> (e: Edit)
    ensures
        e == edit_of(*p, *d),
{
    if d.dup_roll < p.prob_duplicate {
        Edit::Duplicate
    } else if d.sub_roll < p.prob_substitute {
        Edit::Substitute
    } else if d.del_roll > p.prob_delete {
        Edit::Keep
    } else {
        Edit::Delete
    }
}

/// The content of a line: `letter` repeated `length` times.
pub fn generate_line(letter: u8, length: usize) -> (r: Vec<u8>)
    ensures
        r@ == Seq::new(length as nat, |_i: int| letter),
{
    let mut r: Vec<u8> = Vec::new();
    let mut i: usize = 0;
    while i < length
        invariant
            i <= length,
            r@ == Seq::new(i as nat, |_i: int| letter),
        decreases length - i,
    {
        r.push(letter);
        i = i + 1;
        assert(r@ =~= Seq::new(i as nat, |_i: int| letter));
    }
    r
}

fn append_line(out: &mut Vec<u8>, d: &LineDraw)
    ensures
        final(out)@ == old(out)@ + line_text(*d),
{
    let mut line = generate_line(d.letter, d.length);
    line.push(NEWLINE);
    out.append(&mut line);
}

/// Builds the file pair that a sequence of draws describes.
pub fn build_corpus(p: &GeneratorParameters, draws: &Vec<LineDraw>) -> (r: Corpus)
    ensures
        r.source@ == source_text(draws@),
        r.target@ == target_text(*p, draws@),
{
    let mut source: Vec<u8> = Vec::new();
    let mut target: Vec<u8> = Vec::new();
    let mut i: usize = 0;
    while i < draws.len()
        invariant
            i <= draws@.len(),
            source@ == source_text(draws@.take(i as int)),
            target@ == target_text(*p, draws@.take(i as int)),
        decreases draws@.len() - i,
    {
        let d = &draws[i];
        append_line(&mut source, d);
        match decide_edit(p, d) {
            Edit::Duplicate => {
                append_line(&mut target, d);
                append_line(&mut target, d);
            },
            Edit::Substitute => {
                append_line(&mut target, d);
            },
            Edit::Keep => {
                append_line(&mut target, d);
            },
            Edit::Delete => {},
        }
        proof {
            let next = draws@.take(i + 1);
            assert(next.drop_last() =~= draws@.take(i as int));
            assert(next.last() == draws@[i as int]);
        }
        i = i + 1;
    }
    assert(draws@.take(i as int) =~= draws@);
    Corpus { source, target }
}

} // verus!
