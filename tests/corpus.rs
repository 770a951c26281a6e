use patch_bench::{
    build_corpus, decide_edit, draw_line, draw_lines, generate_corpus, generate_line, Edit,
    GeneratorParameters, LineDraw, FIRST_LETTER, LETTER_END, NEWLINE, PROB_SCALE,
};
use rand::rngs::StdRng;
use rand::SeedableRng;

fn params(length: usize, dup: u32, sub: u32, del: u32) -> GeneratorParameters {
    GeneratorParameters {
        length,
        line_length_lower: 5,
        line_length_upper: 30,
        prob_duplicate: dup,
        prob_delete: del,
        prob_substitute: sub,
    }
}

fn lines(text: &[u8]) -> Vec<Vec<u8>> {
    let mut out = Vec::new();
    let mut cur = Vec::new();
    for &b in text {
        if b == NEWLINE {
            out.push(cur.clone());
            cur.clear();
        } else {
            cur.push(b);
        }
    }
    assert!(cur.is_empty(), "text does not end with a line terminator");
    out
}

fn draw(letter: u8, length: usize, dup_roll: u32, sub_roll: u32, del_roll: u32) -> LineDraw {
    LineDraw { letter, length, dup_roll, sub_roll, del_roll }
}

#[test]
fn zero_length_gives_empty_files() {
    let mut rng = StdRng::seed_from_u64(1);
    let c = generate_corpus(&mut rng, &params(0, 100000, 100000, 100000));
    assert!(c.source.is_empty());
    assert!(c.target.is_empty());
}

#[test]
fn source_has_one_line_per_draw() {
    for &len in &[1usize, 7, 250] {
        let mut rng = StdRng::seed_from_u64(len as u64);
        let c = generate_corpus(&mut rng, &params(len, 100000, 100000, 100000));
        assert_eq!(lines(&c.source).len(), len);
    }
}

#[test]
fn certain_duplicate_doubles_every_line() {
    let mut rng = StdRng::seed_from_u64(7);
    let len = 40;
    let c = generate_corpus(&mut rng, &params(len, PROB_SCALE, 0, 0));
    let src = lines(&c.source);
    let tgt = lines(&c.target);
    assert_eq!(tgt.len(), 2 * len);
    for (i, line) in src.iter().enumerate() {
        assert_eq!(&tgt[2 * i], line);
        assert_eq!(&tgt[2 * i + 1], line);
    }
}

#[test]
fn certain_delete_empties_target() {
    let mut rng = StdRng::seed_from_u64(9);
    let c = generate_corpus(&mut rng, &params(60, 0, 0, PROB_SCALE));
    assert_eq!(lines(&c.source).len(), 60);
    assert!(c.target.is_empty());
}

#[test]
fn same_seed_gives_identical_pairs() {
    let p = params(200, 100000, 100000, 100000);
    let mut a = StdRng::seed_from_u64(42);
    let mut b = StdRng::seed_from_u64(42);
    let ca = generate_corpus(&mut a, &p);
    let cb = generate_corpus(&mut b, &p);
    assert_eq!(ca.source, cb.source);
    assert_eq!(ca.target, cb.target);
}

#[test]
fn duplicated_line_is_consecutive_in_target() {
    let p = params(3, 500000, 0, 0);
    let draws = vec![draw(b'a', 2, 900000, 0, 10), draw(b'b', 3, 100, 0, 10), draw(b'c', 1, 900000, 0, 10)];
    let c = build_corpus(&p, &draws);
    assert_eq!(c.source, b"aa\nbbb\nc\n".to_vec());
    assert_eq!(c.target, b"aa\nbbb\nbbb\nc\n".to_vec());
}

#[test]
fn deleted_and_substituted_lines() {
    let p = params(4, 0, 300000, 500000);
    let draws = vec![
        draw(b'd', 1, 0, 100, 0),
        draw(b'e', 2, 0, 400000, 600000),
        draw(b'f', 3, 0, 400000, 500000),
        draw(b'g', 4, 0, 400000, 10),
    ];
    let c = build_corpus(&p, &draws);
    assert_eq!(c.source, b"d\nee\nfff\ngggg\n".to_vec());
    assert_eq!(c.target, b"d\nee\n".to_vec());
}

#[test]
fn edit_precedence() {
    let p = params(1, 500000, 500000, 500000);
    assert_eq!(decide_edit(&p, &draw(b'a', 5, 1, 1, 999999)), Edit::Duplicate);
    assert_eq!(decide_edit(&p, &draw(b'a', 5, 500000, 1, 1)), Edit::Substitute);
    assert_eq!(decide_edit(&p, &draw(b'a', 5, 500000, 500000, 500001)), Edit::Keep);
    assert_eq!(decide_edit(&p, &draw(b'a', 5, 500000, 500000, 500000)), Edit::Delete);
}

#[test]
fn deletion_rate_matches_model() {
    let p = params(200000, 100000, 100000, 100000);
    let mut rng = StdRng::seed_from_u64(2024);
    let draws = draw_lines(&mut rng, &p);
    assert_eq!(draws.len(), 200000);
    let deleted = draws.iter().filter(|d| decide_edit(&p, d) == Edit::Delete).count();
    let rate = deleted as f64 / draws.len() as f64;
    let expected = 0.1 * 0.9 * 0.9;
    assert!((rate - expected).abs() < 0.005, "deletion rate {}", rate);
}

#[test]
fn drawn_lines_stay_in_range() {
    let p = params(1, 0, 0, 0);
    let mut rng = StdRng::seed_from_u64(3);
    let mut letters = std::collections::BTreeSet::new();
    let mut lengths = std::collections::BTreeSet::new();
    for _ in 0..2000 {
        let d = draw_line(&mut rng, &p);
        assert!(FIRST_LETTER <= d.letter && d.letter < LETTER_END);
        assert!(5 <= d.length && d.length < 30);
        assert!(d.dup_roll < PROB_SCALE && d.sub_roll < PROB_SCALE && d.del_roll < PROB_SCALE);
        letters.insert(d.letter);
        lengths.insert(d.length);
    }
    assert_eq!(letters.len(), 25);
    assert_eq!(lengths.len(), 25);
}

#[test]
fn line_content_repeats_letter() {
    assert_eq!(generate_line(b'x', 3), b"xxx".to_vec());
    assert!(generate_line(b'q', 0).is_empty());
}
