use rand::rngs::StdRng;
use rand::Rng;
use vstd::prelude::*;

use crate::corpus::{
    build_corpus, draw_valid, lemma_source_line_count, line_count, draws_valid, source_text, target_text, Corpus,
    GeneratorParameters, LineDraw, FIRST_LETTER, LETTER_END, PROB_SCALE,
};

verus! {

#[verifier::external_type_specification]
#[verifier::external_body]
pub struct ExStdRng(StdRng);

/// Relies on rand::Rng::gen_range: a value in `[low, high)`; it panics when
/// `low >= high`, which `requires` excludes.
#[verifier::external_body]
fn uniform_below(rng: &mut StdRng, low: u64, high: u64) -> (r: u64)
    requires
        low < high,
    ensures
        low <= r < high,
{
    rng.gen_range(low, high)
}

fn draw_roll(rng: &mut StdRng) -> (r: u32)
    ensures
        r < PROB_SCALE,
{
    uniform_below(rng, 0, PROB_SCALE as u64) as u32
}

/// Draws one line: a letter in `[a, z)`, a length in the parameters' range and
/// the three rolls, each in `[0, PROB_SCALE)`.
pub fn draw_line(rng: &mut StdRng, p: &GeneratorParameters) -> (d: LineDraw)
    requires
        p.wf(),
    ensures
        draw_valid(*p, d),
{
    let letter = uniform_below(rng, FIRST_LETTER as u64, LETTER_END as u64) as u8;
    let length = uniform_below(rng, p.line_length_lower as u64, p.line_length_upper as u64) as usize;
    let dup_roll = draw_roll(rng);
    let sub_roll = draw_roll(rng);
    let del_roll = draw_roll(rng);
    LineDraw { letter, length, dup_roll, sub_roll, del_roll }
}

/// Draws the `p.length` lines of one corpus.
pub fn draw_lines(rng: &mut StdRng, p: &GeneratorParameters) -> (ds: Vec<LineDraw>)
    requires
        p.wf(),
    ensures
        ds@.len() == p.length,
        draws_valid(*p, ds@),
{
    let mut ds: Vec<LineDraw> = Vec::new();
    let mut i: usize = 0;
    while i < p.length
        invariant
            p.wf(),
            i <= p.length,
            ds@.len() == i,
            draws_valid(*p, ds@),
        decreases p.length - i,
    {
        let d = draw_line(rng, p);
        ds.push(d);
        i = i + 1;
    }
    ds
}

/// Generates one corpus: whatever the generator draws, the pair is the one
/// that `p.length` valid draws describe.
pub fn generate_corpus(rng: &mut StdRng, p: &GeneratorParameters) -> (r: Corpus)
    requires
        p.wf(),
    ensures
        exists|ds: Seq<LineDraw>|
            {
                &&& ds.len() == p.length
                &&& draws_valid(*p, ds)
                &&& r.source@ == #[trigger] source_text(ds)
                &&& r.target@ == target_text(*p, ds)
            },
        line_count(r.source@) == p.length,
{
    let ds = draw_lines(rng, p);
    proof {
        lemma_source_line_count(*p, ds@);
    }
    build_corpus(p, &ds)
}

} // verus!
