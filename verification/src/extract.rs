//! Extraction of candidate records from a raw response body.
//!
//! The body is scanned, never parsed as a document tree.  Three independent
//! token scans are defined here, exactly as the contracts state them:
//!
//! - the service-reported error: the text between the first `"errorMsg":"`
//!   and the next `"`, normalized to `Invalid Image` when it contains
//!   `Parameter is not valid`;
//! - the warning: the text between the first `showError` and the next `;`,
//!   with every `(`, `)` and `"` removed;
//! - the candidate sections and their records: the female section runs from
//!   its marker to the end of the body, the male section from its marker to
//!   the start of the female marker that follows it.  Within a section,
//!   records are read in order; one record is the next `similarity="` value,
//!   then the next `href="` value, then the next `src="` value (spaces
//!   percent-encoded), then the text of the next `<p ...>...</p>` element.
//!   Scanning stops at the first incomplete block.
use vstd::prelude::*;
use vstd::string::StringExecFns;
use crate::record::{
    lemma_parse_serialize, parse_rec, quote, serialize_rec, CandidateRecord, RecordV,
};
use crate::text::{
    append_range, contains_pat, contains_sub, find, find_from, opt_str_view, string_of, vec_of,
};

verus! {

pub open spec fn fem_marker() -> Seq<char> {
    "<div id=\"female-celebs-result\">"@
}

pub open spec fn male_marker() -> Seq<char> {
    "<div id=\"male-celebs-result\">"@
}

pub open spec fn sim_marker() -> Seq<char> {
    "similarity=\""@
}

pub open spec fn href_marker() -> Seq<char> {
    "href=\""@
}

pub open spec fn src_marker() -> Seq<char> {
    "src=\""@
}

pub open spec fn p_open() -> Seq<char> {
    "<p"@
}

pub open spec fn gt_marker() -> Seq<char> {
    seq!['>']
}

pub open spec fn p_close() -> Seq<char> {
    "</p>"@
}

pub open spec fn err_marker() -> Seq<char> {
    "\"errorMsg\":\""@
}

pub open spec fn warn_marker() -> Seq<char> {
    "showError"@
}

pub open spec fn semi_marker() -> Seq<char> {
    seq![';']
}

pub open spec fn invalid_marker() -> Seq<char> {
    "Parameter is not valid"@
}

pub open spec fn invalid_msg() -> Seq<char> {
    "Invalid Image"@
}

/// The gender name a section's records carry.
pub open spec fn gname(female: bool) -> Seq<char> {
    if female {
        "female"@
    } else {
        "male"@
    }
}

/// How one character of a captured image path is written: spaces are
/// percent-encoded, every other character is kept.
pub open spec fn encode_one(c: char) -> Seq<char> {
    if c == ' ' {
        seq!['%', '2', '0']
    } else {
        seq![c]
    }
}

/// A captured image path with every space percent-encoded.
pub open spec fn encode_spaces(s: Seq<char>) -> Seq<char>
    decreases s.len(),
{
    if s.len() == 0 {
        Seq::empty()
    } else {
        encode_one(s[0]) + encode_spaces(s.drop_first())
    }
}

/// How one character of a warning text is kept: parentheses and quotes are
/// removed.
pub open spec fn keep_one(c: char) -> Seq<char> {
    if c == '(' || c == ')' || c == '"' {
        Seq::empty()
    } else {
        seq![c]
    }
}

/// A warning text with every parenthesis and quote removed.
pub open spec fn strip_wrapping(s: Seq<char>) -> Seq<char>
    decreases s.len(),
{
    if s.len() == 0 {
        Seq::empty()
    } else {
        keep_one(s[0]) + strip_wrapping(s.drop_first())
    }
}

/// The raw text captured by the error scan, before normalization.
pub open spec fn err_capture(b: Seq<char>) -> Option<Seq<char>> {
    match find_from(b, err_marker(), 0) {
        None => None,
        Some(i) => match find_from(b, quote(), i + err_marker().len()) {
            None => None,
            Some(e) => Some(b.subrange(i + err_marker().len(), e)),
        },
    }
}

/// The service-reported error of a body, if any, normalized.
pub open spec fn error_of(b: Seq<char>) -> Option<Seq<char>> {
    match err_capture(b) {
        None => None,
        Some(v) => if contains_sub(v, invalid_marker()) {
            Some(invalid_msg())
        } else {
            Some(v)
        },
    }
}

/// The warning of a body, if any.
pub open spec fn warning_of(b: Seq<char>) -> Option<Seq<char>> {
    match find_from(b, warn_marker(), 0) {
        None => None,
        Some(i) => match find_from(b, semi_marker(), i + warn_marker().len()) {
            None => None,
            Some(j) => Some(strip_wrapping(b.subrange(i + warn_marker().len(), j))),
        },
    }
}

/// The female section: from its marker to the end of the body.
pub open spec fn female_span(b: Seq<char>) -> Option<Seq<char>> {
    match find_from(b, fem_marker(), 0) {
        None => None,
        Some(i) => Some(b.subrange(i, b.len() as int)),
    }
}

/// The male section: from its marker to the start of the female marker that
/// follows it.
pub open spec fn male_span(b: Seq<char>) -> Option<Seq<char>> {
    match find_from(b, male_marker(), 0) {
        None => None,
        Some(i) => match find_from(b, fem_marker(), i + male_marker().len()) {
            None => None,
            Some(j) => Some(b.subrange(i, j)),
        },
    }
}

/// The next candidate block of `t` at or after `from`, and the position just
/// past it: similarity value, then wiki link, then image path, then name.
pub open spec fn next_record_at(t: Seq<char>, from: int, gender: Seq<char>) -> Option<
    (RecordV, int),
> {
    match find_from(t, sim_marker(), from) {
        None => None,
        Some(i1) => {
            let s1 = i1 + sim_marker().len();
            match find_from(t, quote(), s1) {
                None => None,
                Some(e1) => match find_from(t, href_marker(), e1 + 1) {
                    None => None,
                    Some(i2) => {
                        let s2 = i2 + href_marker().len();
                        match find_from(t, quote(), s2) {
                            None => None,
                            Some(e2) => match find_from(t, src_marker(), e2 + 1) {
                                None => None,
                                Some(i3) => {
                                    let s3 = i3 + src_marker().len();
                                    match find_from(t, quote(), s3) {
                                        None => None,
                                        Some(e3) => match find_from(t, p_open(), e3 + 1) {
                                            None => None,
                                            Some(i4) => match find_from(
                                                t,
                                                gt_marker(),
                                                i4 + p_open().len(),
                                            ) {
                                                None => None,
                                                Some(gt) => match find_from(t, p_close(), gt + 1) {
                                                    None => None,
                                                    Some(e4) => Some(
                                                        (
                                                            RecordV {
                                                                similarity: t.subrange(
                                                                    s1,
                                                                    e1,
                                                                ).push('%'),
                                                                name: t.subrange(gt + 1, e4),
                                                                gender: gender,
                                                                image: encode_spaces(
                                                                    t.subrange(s3, e3),
                                                                ),
                                                                wiki: t.subrange(s2, e2),
                                                            },
                                                            e4 + p_close().len(),
                                                        ),
                                                    ),
                                                },
                                            },
                                        },
                                    }
                                },
                            },
                        }
                    },
                },
            }
        },
    }
}

/// All candidate blocks of `t` from position `from` on, in order.
pub open spec fn records_from(t: Seq<char>, from: int, gender: Seq<char>) -> Seq<RecordV>
    decreases t.len() - from + 1,
{
    if from < 0 || from > t.len() {
        Seq::empty()
    } else {
        match next_record_at(t, from, gender) {
            None => Seq::empty(),
            Some((r, n)) => if from < n <= t.len() {
                seq![r] + records_from(t, n, gender)
            } else {
                Seq::empty()
            },
        }
    }
}

/// The records of a section, serialized, in order.
pub open spec fn serialized_from(t: Seq<char>, gender: Seq<char>) -> Seq<Seq<char>> {
    records_from(t, 0, gender).map_values(|r: RecordV| serialize_rec(r))
}

/// The serialized records one gender section of a body yields; empty when the
/// section is absent.
pub open spec fn gender_list(b: Seq<char>, female: bool) -> Seq<Seq<char>> {
    match (if female {
        female_span(b)
    } else {
        male_span(b)
    }) {
        None => Seq::empty(),
        Some(sec) => serialized_from(sec, gname(female)),
    }
}

/// Every record a section scan yields carries the section's gender.
pub proof fn lemma_records_gender(t: Seq<char>, from: int, g: Seq<char>)
    ensures
        forall|i: int|
            0 <= i < records_from(t, from, g).len() ==> (#[trigger] records_from(t, from, g)[i]).gender
                == g,
    decreases t.len() - from + 1,
{
    if from < 0 || from > t.len() {
    } else {
        match next_record_at(t, from, g) {
            None => {},
            Some((r, n)) => {
                if from < n <= t.len() {
                    lemma_records_gender(t, n, g);
                    assert(r.gender == g);
                    assert forall|i: int| 0 <= i < records_from(t, from, g).len() implies (
                    #[trigger] records_from(t, from, g)[i]).gender == g by {
                        if i == 0 {
                            assert(records_from(t, from, g)[0] == r);
                        } else {
                            assert(records_from(t, from, g)[i] == records_from(t, n, g)[i - 1]);
                        }
                    };
                }
            },
        }
    }
}

/// Every serialized record a gender section yields parses back to a record
/// that carries that section's gender.
pub proof fn lemma_gender_list_gender(b: Seq<char>, female: bool)
    ensures
        forall|i: int|
            0 <= i < gender_list(b, female).len() ==> {
                let p = parse_rec(#[trigger] gender_list(b, female)[i]);
                p matches Some(r) && r.gender == gname(female)
            },
{
    let span = if female {
        female_span(b)
    } else {
        male_span(b)
    };
    match span {
        None => {},
        Some(sec) => {
            lemma_records_gender(sec, 0, gname(female));
            assert forall|i: int| 0 <= i < gender_list(b, female).len() implies {
                let p = parse_rec(#[trigger] gender_list(b, female)[i]);
                p matches Some(r) && r.gender == gname(female)
            } by {
                let recs = records_from(sec, 0, gname(female));
                assert(gender_list(b, female)[i] == serialize_rec(recs[i]));
                lemma_parse_serialize(recs[i]);
            };
        },
    }
}

/// A body whose error capture contains the invalid-parameter phrase reports
/// exactly the normalized message.
pub proof fn lemma_invalid_image(b: Seq<char>)
    requires
        err_capture(b) matches Some(v) && contains_sub(v, invalid_marker()),
    ensures
        error_of(b) == Some(invalid_msg()),
{
}

/// A percent-encoded image path contains no space: every space of the
/// captured path is replaced, not only the first.
pub proof fn lemma_encode_no_space(s: Seq<char>)
    ensures
        forall|i: int| 0 <= i < encode_spaces(s).len() ==> encode_spaces(s)[i] != ' ',
    decreases s.len(),
{
    if s.len() == 0 {
    } else {
        lemma_encode_no_space(s.drop_first());
        assert forall|i: int| 0 <= i < encode_spaces(s).len() implies encode_spaces(s)[i]
            != ' ' by {
            assert(encode_spaces(s) == encode_one(s[0]) + encode_spaces(s.drop_first()));
            if i < encode_one(s[0]).len() {
                assert(encode_spaces(s)[i] == encode_one(s[0])[i]);
            } else {
                assert(encode_spaces(s)[i] == encode_spaces(s.drop_first())[i - encode_one(
                    s[0],
                ).len()]);
            }
        };
    }
}

proof fn lemma_encode_snoc(s: Seq<char>, c: char)
    ensures
        encode_spaces(s.push(c)) == encode_spaces(s) + encode_one(c),
    decreases s.len(),
{
    if s.len() == 0 {
        assert(s.push(c)[0] == c);
        assert(s.push(c).drop_first() =~= s);
        assert(encode_spaces(s.push(c)) == encode_one(c) + encode_spaces(s));
        assert(encode_one(c) + encode_spaces(s) =~= encode_spaces(s) + encode_one(c));
    } else {
        assert(s.push(c)[0] == s[0]);
        assert(s.push(c).drop_first() =~= s.drop_first().push(c));
        lemma_encode_snoc(s.drop_first(), c);
        assert(encode_spaces(s.push(c)) == encode_one(s[0]) + (encode_spaces(s.drop_first())
            + encode_one(c)));
        assert(encode_one(s[0]) + (encode_spaces(s.drop_first()) + encode_one(c)) =~= (encode_one(
            s[0],
        ) + encode_spaces(s.drop_first())) + encode_one(c));
    }
}

proof fn lemma_strip_snoc(s: Seq<char>, c: char)
    ensures
        strip_wrapping(s.push(c)) == strip_wrapping(s) + keep_one(c),
    decreases s.len(),
{
    if s.len() == 0 {
        assert(s.push(c)[0] == c);
        assert(s.push(c).drop_first() =~= s);
        assert(strip_wrapping(s.push(c)) == keep_one(c) + strip_wrapping(s));
        assert(keep_one(c) + strip_wrapping(s) =~= strip_wrapping(s) + keep_one(c));
    } else {
        assert(s.push(c)[0] == s[0]);
        assert(s.push(c).drop_first() =~= s.drop_first().push(c));
        lemma_strip_snoc(s.drop_first(), c);
        assert(strip_wrapping(s.push(c)) == keep_one(s[0]) + (strip_wrapping(s.drop_first())
            + keep_one(c)));
        assert(keep_one(s[0]) + (strip_wrapping(s.drop_first()) + keep_one(c)) =~= (keep_one(s[0])
            + strip_wrapping(s.drop_first())) + keep_one(c));
    }
}

/// Appends `src[from..to]` to `dst`, with every space percent-encoded.
fn append_encoded(dst: &mut Vec<char>, src: &Vec<char>, from: usize, to: usize)
    requires
        from <= to <= src@.len(),
    ensures
        final(dst)@ == old(dst)@ + encode_spaces(src@.subrange(from as int, to as int)),
{
    let mut k: usize = from;
    while k < to
        invariant
            from <= k <= to <= src@.len(),
            dst@ == old(dst)@ + encode_spaces(src@.subrange(from as int, k as int)),
        decreases to - k,
    {
        let c = src[k];
        proof {
            lemma_encode_snoc(src@.subrange(from as int, k as int), src@[k as int]);
            assert(src@.subrange(from as int, k as int).push(src@[k as int]) =~= src@.subrange(
                from as int,
                k + 1 as int,
            ));
        }
        if c == ' ' {
            dst.push('%');
            dst.push('2');
            dst.push('0');
            assert(dst@ =~= old(dst)@ + encode_spaces(src@.subrange(from as int, k + 1 as int)));
        } else {
            dst.push(c);
            assert(dst@ =~= old(dst)@ + encode_spaces(src@.subrange(from as int, k + 1 as int)));
        }
        k += 1;
    }
}

/// Appends `src[from..to]` to `dst`, dropping parentheses and quotes.
fn append_stripped(dst: &mut Vec<char>, src: &Vec<char>, from: usize, to: usize)
    requires
        from <= to <= src@.len(),
    ensures
        final(dst)@ == old(dst)@ + strip_wrapping(src@.subrange(from as int, to as int)),
{
    let mut k: usize = from;
    while k < to
        invariant
            from <= k <= to <= src@.len(),
            dst@ == old(dst)@ + strip_wrapping(src@.subrange(from as int, k as int)),
        decreases to - k,
    {
        let c = src[k];
        proof {
            lemma_strip_snoc(src@.subrange(from as int, k as int), src@[k as int]);
            assert(src@.subrange(from as int, k as int).push(src@[k as int]) =~= src@.subrange(
                from as int,
                k + 1 as int,
            ));
        }
        if c == '(' || c == ')' || c == '"' {
            assert(dst@ =~= old(dst)@ + strip_wrapping(src@.subrange(from as int, k + 1 as int)));
        } else {
            dst.push(c);
            assert(dst@ =~= old(dst)@ + strip_wrapping(src@.subrange(from as int, k + 1 as int)));
        }
        k += 1;
    }
}

fn quote_vec() -> (v: Vec<char>)
    ensures
        v@ == quote(),
{
    let mut v: Vec<char> = Vec::new();
    v.push('"');
    assert(v@ =~= quote());
    v
}

/// The service-reported error of a body, if any, normalized.
pub fn error_text(body: &str) -> (r: Option<String>)
    ensures
        opt_str_view(r) == error_of(body@),
{
    let t = vec_of(body);
    let _n = t.len();
    let marker = vec_of("\"errorMsg\":\"");
    let i = match find(&t, &marker, 0) {
        Some(i) => i,
        None => {
            return None;
        },
    };
    let q = quote_vec();
    let start = i + marker.len();
    let e = match find(&t, &q, start) {
        Some(e) => e,
        None => {
            return None;
        },
    };
    let mut cap: Vec<char> = Vec::new();
    append_range(&mut cap, &t, start, e);
    assert(cap@ =~= t@.subrange(start as int, e as int));
    let pinv = vec_of("Parameter is not valid");
    if contains_pat(&cap, &pinv) {
        Some(String::from_str("Invalid Image"))
    } else {
        Some(string_of(&cap))
    }
}

/// The warning of a body, if any.
pub fn warning_text(body: &str) -> (r: Option<String>)
    ensures
        opt_str_view(r) == warning_of(body@),
{
    let t = vec_of(body);
    let _n = t.len();
    let marker = vec_of("showError");
    let i = match find(&t, &marker, 0) {
        Some(i) => i,
        None => {
            return None;
        },
    };
    let mut semi: Vec<char> = Vec::new();
    semi.push(';');
    assert(semi@ =~= semi_marker());
    let start = i + marker.len();
    let j = match find(&t, &semi, start) {
        Some(j) => j,
        None => {
            return None;
        },
    };
    let mut out: Vec<char> = Vec::new();
    append_stripped(&mut out, &t, start, j);
    assert(out@ =~= strip_wrapping(t@.subrange(start as int, j as int)));
    Some(string_of(&out))
}

/// The requested gender section of `t`, as its own vector.
fn section_of(t: &Vec<char>, female: bool) -> (r: Option<Vec<char>>)
    ensures
        match r {
            Some(sec) => (if female {
                female_span(t@)
            } else {
                male_span(t@)
            }) == Some(sec@),
            None => (if female {
                female_span(t@)
            } else {
                male_span(t@)
            }) is None,
        },
{
    if female {
        let marker = vec_of("<div id=\"female-celebs-result\">");
        let i = match find(t, &marker, 0) {
            Some(i) => i,
            None => {
                return None;
            },
        };
        let mut sec: Vec<char> = Vec::new();
        append_range(&mut sec, t, i, t.len());
        assert(sec@ =~= t@.subrange(i as int, t@.len() as int));
        Some(sec)
    } else {
        let _n = t.len();
        let mmark = vec_of("<div id=\"male-celebs-result\">");
        let i = match find(t, &mmark, 0) {
            Some(i) => i,
            None => {
                return None;
            },
        };
        let fmark = vec_of("<div id=\"female-celebs-result\">");
        let j = match find(t, &fmark, i + mmark.len()) {
            Some(j) => j,
            None => {
                return None;
            },
        };
        let mut sec: Vec<char> = Vec::new();
        append_range(&mut sec, t, i, j);
        assert(sec@ =~= t@.subrange(i as int, j as int));
        Some(sec)
    }
}

/// The next candidate block of `t` at or after `from`, as a populated record,
/// with the position just past it.
fn next_record(t: &Vec<char>, from: usize, female: bool) -> (r: Option<(CandidateRecord, usize)>)
    ensures
        match r {
            Some(p) => next_record_at(t@, from as int, gname(female)) == Some((p.0@, p.1 as int))
                && from < p.1 <= t@.len(),
            None => next_record_at(t@, from as int, gname(female)) is None,
        },
{
    let _n = t.len();
    let msim = vec_of("similarity=\"");
    let i1 = match find(t, &msim, from) {
        Some(i) => i,
        None => {
            return None;
        },
    };
    let s1 = i1 + msim.len();
    let q = quote_vec();
    let e1 = match find(t, &q, s1) {
        Some(e) => e,
        None => {
            return None;
        },
    };
    let mhref = vec_of("href=\"");
    let i2 = match find(t, &mhref, e1 + 1) {
        Some(i) => i,
        None => {
            return None;
        },
    };
    let s2 = i2 + mhref.len();
    let e2 = match find(t, &q, s2) {
        Some(e) => e,
        None => {
            return None;
        },
    };
    let msrc = vec_of("src=\"");
    let i3 = match find(t, &msrc, e2 + 1) {
        Some(i) => i,
        None => {
            return None;
        },
    };
    let s3 = i3 + msrc.len();
    let e3 = match find(t, &q, s3) {
        Some(e) => e,
        None => {
            return None;
        },
    };
    let mp = vec_of("<p");
    let i4 = match find(t, &mp, e3 + 1) {
        Some(i) => i,
        None => {
            return None;
        },
    };
    let mut gtv: Vec<char> = Vec::new();
    gtv.push('>');
    assert(gtv@ =~= gt_marker());
    let gt = match find(t, &gtv, i4 + mp.len()) {
        Some(g) => g,
        None => {
            return None;
        },
    };
    let mpc = vec_of("</p>");
    let e4 = match find(t, &mpc, gt + 1) {
        Some(e) => e,
        None => {
            return None;
        },
    };
    let np = e4 + mpc.len();
    let mut simv: Vec<char> = Vec::new();
    append_range(&mut simv, t, s1, e1);
    simv.push('%');
    assert(simv@ =~= t@.subrange(s1 as int, e1 as int).push('%'));
    let mut namev: Vec<char> = Vec::new();
    append_range(&mut namev, t, gt + 1, e4);
    assert(namev@ =~= t@.subrange(gt + 1 as int, e4 as int));
    let mut imagev: Vec<char> = Vec::new();
    append_encoded(&mut imagev, t, s3, e3);
    assert(imagev@ =~= encode_spaces(t@.subrange(s3 as int, e3 as int)));
    let mut wikiv: Vec<char> = Vec::new();
    append_range(&mut wikiv, t, s2, e2);
    assert(wikiv@ =~= t@.subrange(s2 as int, e2 as int));
    let gender = if female {
        String::from_str("female")
    } else {
        String::from_str("male")
    };
    let rec = CandidateRecord {
        similarity: string_of(&simv),
        name: string_of(&namev),
        gender,
        image: string_of(&imagev),
        wiki: string_of(&wikiv),
    };
    Some((rec, np))
}

/// All candidate blocks of a section, serialized, in order.
fn scan_section(sec: &Vec<char>, female: bool) -> (out: Vec<String>)
    ensures
        out.deep_view() == serialized_from(sec@, gname(female)),
{
    let ghost g = gname(female);
    let mut out: Vec<String> = Vec::new();
    let mut p: usize = 0;
    let ghost mut done: Seq<RecordV> = Seq::empty();
    loop
        invariant
            p <= sec@.len(),
            records_from(sec@, 0, g) == done + records_from(sec@, p as int, g),
            out.deep_view().len() == done.len(),
            forall|i: int|
                0 <= i < done.len() ==> out.deep_view()[i] == serialize_rec(#[trigger] done[i]),
            g == gname(female),
        ensures
            records_from(sec@, 0, g) == done,
            out.deep_view().len() == done.len(),
            forall|i: int|
                0 <= i < done.len() ==> out.deep_view()[i] == serialize_rec(#[trigger] done[i]),
        decreases sec@.len() + 1 - p,
    {
        match next_record(sec, p, female) {
            None => {
                assert(records_from(sec@, p as int, g) =~= Seq::<RecordV>::empty());
                assert(done + Seq::<RecordV>::empty() =~= done);
                break ;
            },
            Some((rec, np)) => {
                let ghost out0 = out.deep_view();
                let ghost done0 = done;
                let s = rec.serialize();
                out.push(s);
                proof {
                    done = done + seq![rec@];
                    assert(records_from(sec@, p as int, g) == seq![rec@] + records_from(
                        sec@,
                        np as int,
                        g,
                    ));
                    assert(done0 + (seq![rec@] + records_from(sec@, np as int, g)) =~= done
                        + records_from(sec@, np as int, g));
                    assert(out.deep_view() =~= out0.push(s@));
                }
                p = np;
            },
        }
    }
    assert(out.deep_view() =~= serialized_from(sec@, g));
    out
}

/// The serialized records of one gender section of a body, in order; empty
/// when the section is absent.
pub fn gender_records(body: &str, female: bool) -> (out: Vec<String>)
    ensures
        out.deep_view() == gender_list(body@, female),
{
    let t = vec_of(body);
    match section_of(&t, female) {
        None => {
            let out: Vec<String> = Vec::new();
            assert(out.deep_view() =~= gender_list(body@, female));
            out
        },
        Some(sec) => {
            let out = scan_section(&sec, female);
            out
        },
    }
}

} // verus!
