//! The candidate record and its serialized form.
//!
//! A record is serialized as one flat field-value object,
//! `{"similarity":"..","name":"..","gender":"..","image":"..","wiki":".."}`,
//! with `"` and `\` in a value escaped by a backslash.  `parse_rec` accepts
//! exactly the texts that `serialize_rec` produces, and parsing a serialized
//! record gives the record back (`lemma_parse_serialize`).
use vstd::prelude::*;
use crate::text::{append_range, lit_at, match_at, string_of, vec_of};

verus! {

/// The mathematical content of a candidate record: the five field values.
#[verifier::ext_equal]
pub struct RecordV {
    pub similarity: Seq<char>,
    pub name: Seq<char>,
    pub gender: Seq<char>,
    pub image: Seq<char>,
    pub wiki: Seq<char>,
}

/// One candidate returned by the service, fully populated.
pub struct CandidateRecord {
    pub similarity: String,
    pub name: String,
    pub gender: String,
    pub image: String,
    pub wiki: String,
}

impl View for CandidateRecord {
    type V = RecordV;

    open spec fn view(&self) -> RecordV {
        RecordV {
            similarity: self.similarity@,
            name: self.name@,
            gender: self.gender@,
            image: self.image@,
            wiki: self.wiki@,
        }
    }
}

/// How one character of a field value is written in the serialized text.
pub open spec fn esc_char(c: char) -> Seq<char> {
    if c == '"' || c == '\\' {
        seq!['\\', c]
    } else {
        seq![c]
    }
}

/// A field value as it is written in the serialized text.
pub open spec fn escape(s: Seq<char>) -> Seq<char>
    decreases s.len(),
{
    if s.len() == 0 {
        Seq::empty()
    } else {
        esc_char(s[0]) + escape(s.drop_first())
    }
}

pub open spec fn quote() -> Seq<char> {
    seq!['"']
}

pub open spec fn rbrace() -> Seq<char> {
    seq!['}']
}

pub open spec fn lit_sim() -> Seq<char> {
    "{\"similarity\":\""@
}

pub open spec fn lit_name() -> Seq<char> {
    ",\"name\":\""@
}

pub open spec fn lit_gender() -> Seq<char> {
    ",\"gender\":\""@
}

pub open spec fn lit_image() -> Seq<char> {
    ",\"image\":\""@
}

pub open spec fn lit_wiki() -> Seq<char> {
    ",\"wiki\":\""@
}

/// One escaped field value, its closing quote, and whatever follows.
pub open spec fn field_tail(v: Seq<char>, rest: Seq<char>) -> Seq<char> {
    escape(v) + quote() + rest
}

/// The serialized text of a record: the five fields in fixed order, each
/// escaped and quoted, inside one pair of braces.
pub open spec fn serialize_rec(r: RecordV) -> Seq<char> {
    lit_sim() + field_tail(
        r.similarity,
        lit_name() + field_tail(
            r.name,
            lit_gender() + field_tail(
                r.gender,
                lit_image() + field_tail(r.image, lit_wiki() + field_tail(r.wiki, rbrace())),
            ),
        ),
    )
}

/// Reads one quoted field value starting at `p`: unescapes up to the first
/// unescaped quote, and gives the value together with the index of that quote.
pub open spec fn scan_value_at(s: Seq<char>, p: int) -> Option<(Seq<char>, int)>
    decreases s.len() - p + 1,
{
    if p < 0 || p >= s.len() {
        None
    } else if s[p] == '"' {
        Some((Seq::empty(), p))
    } else if s[p] == '\\' {
        if p + 2 <= s.len() && (s[p + 1] == '\\' || s[p + 1] == '"') {
            match scan_value_at(s, p + 2) {
                None => None,
                Some((v, e)) => Some((seq![s[p + 1]] + v, e)),
            }
        } else {
            None
        }
    } else {
        match scan_value_at(s, p + 1) {
            None => None,
            Some((v, e)) => Some((seq![s[p]] + v, e)),
        }
    }
}

/// Parses a serialized record; `None` on any text that `serialize_rec` cannot
/// have produced.
pub open spec fn parse_rec(s: Seq<char>) -> Option<RecordV> {
    if !match_at(s, lit_sim(), 0) {
        None
    } else {
        match scan_value_at(s, lit_sim().len() as int) {
            None => None,
            Some((sim, q1)) => if !match_at(s, lit_name(), q1 + 1) {
                None
            } else {
                match scan_value_at(s, q1 + 1 + lit_name().len()) {
                    None => None,
                    Some((name, q2)) => if !match_at(s, lit_gender(), q2 + 1) {
                        None
                    } else {
                        match scan_value_at(s, q2 + 1 + lit_gender().len()) {
                            None => None,
                            Some((gender, q3)) => if !match_at(s, lit_image(), q3 + 1) {
                                None
                            } else {
                                match scan_value_at(s, q3 + 1 + lit_image().len()) {
                                    None => None,
                                    Some((image, q4)) => if !match_at(s, lit_wiki(), q4 + 1) {
                                        None
                                    } else {
                                        match scan_value_at(s, q4 + 1 + lit_wiki().len()) {
                                            None => None,
                                            Some((wiki, q5)) => if q5 + 2 == s.len() && s[q5 + 1]
                                                == '}' {
                                                Some(
                                                    RecordV {
                                                        similarity: sim,
                                                        name,
                                                        gender,
                                                        image,
                                                        wiki,
                                                    },
                                                )
                                            } else {
                                                None
                                            },
                                        }
                                    },
                                }
                            },
                        }
                    },
                }
            },
        }
    }
}

/// Splitting a suffix of `s` splits its subranges accordingly.
proof fn lemma_subrange_of_suffix(s: Seq<char>, pos: int, a: Seq<char>, b: Seq<char>)
    requires
        0 <= pos <= s.len(),
        s.subrange(pos, s.len() as int) == a + b,
    ensures
        s.subrange(pos, pos + a.len()) == a,
        s.subrange(pos + a.len(), s.len() as int) == b,
{
    let suf = s.subrange(pos, s.len() as int);
    assert(suf.len() == a.len() + b.len());
    assert forall|i: int| 0 <= i < a.len() implies s.subrange(pos, pos + a.len())[i] == a[i] by {
        assert(suf[i] == (a + b)[i]);
        assert(suf[i] == s[pos + i]);
    };
    assert(s.subrange(pos, pos + a.len()) =~= a);
    assert forall|i: int| 0 <= i < b.len() implies s.subrange(pos + a.len(), s.len() as int)[i]
        == b[i] by {
        assert(suf[a.len() + i] == (a + b)[a.len() + i]);
        assert(suf[a.len() + i] == s[pos + a.len() + i]);
    };
    assert(s.subrange(pos + a.len(), s.len() as int) =~= b);
}

/// Scanning from the start of an escaped field value yields that value and
/// stops at its closing quote.
proof fn lemma_scan_field(s: Seq<char>, p: int, v: Seq<char>, rest: Seq<char>)
    requires
        0 <= p <= s.len(),
        s.subrange(p, s.len() as int) == field_tail(v, rest),
    ensures
        scan_value_at(s, p) == Some((v, p + escape(v).len())),
    decreases v.len(),
{
    let suf = s.subrange(p, s.len() as int);
    if v.len() == 0 {
        assert(suf.len() == escape(v).len() + 1 + rest.len());
        assert(p < s.len());
        assert(suf[0] == s[p] && suf[0] == (escape(v) + quote() + rest)[0]);
        assert(s[p] == '"');
        assert(escape(v).len() == 0);
        assert(scan_value_at(s, p) == Some((Seq::<char>::empty(), p)));
        assert(v =~= Seq::<char>::empty());
    } else {
        let c = v[0];
        let v2 = v.drop_first();
        assert(escape(v) == esc_char(c) + escape(v2));
        assert(suf =~= esc_char(c) + field_tail(v2, rest));
        lemma_subrange_of_suffix(s, p, esc_char(c), field_tail(v2, rest));
        if c == '"' || c == '\\' {
            assert(esc_char(c).len() == 2);
            assert(suf[0] == s[p] && suf[0] == (esc_char(c) + field_tail(v2, rest))[0]);
            assert(suf[1] == s[p + 1] && suf[1] == (esc_char(c) + field_tail(v2, rest))[1]);
            assert(s[p] == '\\');
            assert(s[p + 1] == c);
            lemma_scan_field(s, p + 2, v2, rest);
            assert(seq![c] + v2 =~= v);
            assert(scan_value_at(s, p) == Some((seq![s[p + 1]] + v2, p + 2 + escape(v2).len())));
        } else {
            assert(esc_char(c).len() == 1);
            assert(suf[0] == s[p] && suf[0] == (esc_char(c) + field_tail(v2, rest))[0]);
            assert(s[p] == c);
            lemma_scan_field(s, p + 1, v2, rest);
            assert(seq![c] + v2 =~= v);
            assert(scan_value_at(s, p) == Some((seq![s[p]] + v2, p + 1 + escape(v2).len())));
        }
    }
}

/// One field step of the round trip: a suffix that starts with a field's
/// literal marker parses through that field and leaves the rest.
#[verifier::spinoff_prover]
proof fn lemma_parse_step(s: Seq<char>, pos: int, v: Seq<char>, lit: Seq<char>, rest: Seq<char>)
    requires
        0 <= pos <= s.len(),
        s.subrange(pos, s.len() as int) == lit + field_tail(v, rest),
    ensures
        match_at(s, lit, pos),
        scan_value_at(s, pos + lit.len()) == Some((v, pos + lit.len() + escape(v).len())),
        pos + lit.len() + escape(v).len() + 1 <= s.len(),
        s.subrange(pos + lit.len() + escape(v).len() + 1, s.len() as int) == rest,
{
    let suf = s.subrange(pos, s.len() as int);
    assert(suf.len() == s.len() - pos);
    assert(suf.len() == lit.len() + field_tail(v, rest).len());
    assert(field_tail(v, rest).len() == escape(v).len() + 1 + rest.len());
    lemma_subrange_of_suffix(s, pos, lit, field_tail(v, rest));
    let p = pos + lit.len();
    lemma_scan_field(s, p, v, rest);
    assert(field_tail(v, rest) =~= (escape(v) + quote()) + rest);
    lemma_subrange_of_suffix(s, p, escape(v) + quote(), rest);
}

/// Round trip: parsing a serialized record yields the record itself.
#[verifier::spinoff_prover]
pub proof fn lemma_parse_serialize(r: RecordV)
    ensures
        parse_rec(serialize_rec(r)) == Some(r),
{
    let s = serialize_rec(r);
    let rest5 = rbrace();
    let f5 = field_tail(r.wiki, rest5);
    let rest4 = lit_wiki() + f5;
    let f4 = field_tail(r.image, rest4);
    let rest3 = lit_image() + f4;
    let f3 = field_tail(r.gender, rest3);
    let rest2 = lit_gender() + f3;
    let f2 = field_tail(r.name, rest2);
    let rest1 = lit_name() + f2;
    assert(s.subrange(0, s.len() as int) =~= lit_sim() + field_tail(r.similarity, rest1));
    lemma_parse_step(s, 0, r.similarity, lit_sim(), rest1);
    let q1: int = lit_sim().len() as int + escape(r.similarity).len() as int;
    lemma_parse_step(s, q1 + 1, r.name, lit_name(), rest2);
    let q2: int = q1 + 1 + lit_name().len() + escape(r.name).len();
    lemma_parse_step(s, q2 + 1, r.gender, lit_gender(), rest3);
    let q3: int = q2 + 1 + lit_gender().len() + escape(r.gender).len();
    lemma_parse_step(s, q3 + 1, r.image, lit_image(), rest4);
    let q4: int = q3 + 1 + lit_image().len() + escape(r.image).len();
    lemma_parse_step(s, q4 + 1, r.wiki, lit_wiki(), rest5);
    let q5: int = q4 + 1 + lit_wiki().len() + escape(r.wiki).len();
    assert(s.len() == q5 + 2);
    assert(s[q5 + 1] == '}') by {
        assert(s.subrange(q5 + 1, s.len() as int)[0] == rbrace()[0]);
    };
    assert(parse_rec(s) matches Some(p) && p =~= r);
}

/// Appending one more character extends the escaped text by that character's
/// escape.
proof fn lemma_escape_snoc(s: Seq<char>, c: char)
    ensures
        escape(s.push(c)) == escape(s) + esc_char(c),
    decreases s.len(),
{
    if s.len() == 0 {
        assert(s.push(c)[0] == c);
        assert(s.push(c).drop_first() =~= s);
        assert(escape(s.push(c)) == esc_char(c) + escape(s));
        assert(esc_char(c) + escape(s) =~= escape(s) + esc_char(c));
    } else {
        assert(s.push(c)[0] == s[0]);
        assert(s.push(c).drop_first() =~= s.drop_first().push(c));
        lemma_escape_snoc(s.drop_first(), c);
        assert(escape(s.push(c)) == esc_char(s[0]) + (escape(s.drop_first()) + esc_char(c)));
        assert(esc_char(s[0]) + (escape(s.drop_first()) + esc_char(c)) =~= (esc_char(s[0])
            + escape(s.drop_first())) + esc_char(c));
    }
}

/// Appends the escaped form of `src` to `dst`.
fn append_escaped(dst: &mut Vec<char>, src: &Vec<char>)
    ensures
        final(dst)@ == old(dst)@ + escape(src@),
{
    let n = src.len();
    let mut k: usize = 0;
    while k < n
        invariant
            n == src@.len(),
            k <= n,
            dst@ == old(dst)@ + escape(src@.subrange(0, k as int)),
        decreases n - k,
    {
        let c = src[k];
        proof {
            lemma_escape_snoc(src@.subrange(0, k as int), src@[k as int]);
            assert(src@.subrange(0, k as int).push(src@[k as int]) =~= src@.subrange(
                0,
                k + 1 as int,
            ));
        }
        if c == '"' || c == '\\' {
            dst.push('\\');
            dst.push(c);
            assert(dst@ =~= old(dst)@ + escape(src@.subrange(0, k + 1 as int)));
        } else {
            dst.push(c);
            assert(dst@ =~= old(dst)@ + escape(src@.subrange(0, k + 1 as int)));
        }
        k += 1;
    }
    assert(src@.subrange(0, n as int) =~= src@);
}

/// Appends the whole of `src` to `dst`.
pub fn append_all(dst: &mut Vec<char>, src: &Vec<char>)
    ensures
        final(dst)@ == old(dst)@ + src@,
{
    let n = src.len();
    append_range(dst, src, 0, n);
    assert(src@.subrange(0, n as int) =~= src@);
}

impl CandidateRecord {
    /// The record's serialized text.
    pub fn serialize(&self) -> (s: String)
        ensures
            s@ == serialize_rec(self@),
    {
        let mut out: Vec<char> = Vec::new();
        let lit1 = vec_of("{\"similarity\":\"");
        append_all(&mut out, &lit1);
        let v1 = vec_of(self.similarity.as_str());
        append_escaped(&mut out, &v1);
        out.push('"');
        let lit2 = vec_of(",\"name\":\"");
        append_all(&mut out, &lit2);
        let v2 = vec_of(self.name.as_str());
        append_escaped(&mut out, &v2);
        out.push('"');
        let lit3 = vec_of(",\"gender\":\"");
        append_all(&mut out, &lit3);
        let v3 = vec_of(self.gender.as_str());
        append_escaped(&mut out, &v3);
        out.push('"');
        let lit4 = vec_of(",\"image\":\"");
        append_all(&mut out, &lit4);
        let v4 = vec_of(self.image.as_str());
        append_escaped(&mut out, &v4);
        out.push('"');
        let lit5 = vec_of(",\"wiki\":\"");
        append_all(&mut out, &lit5);
        let v5 = vec_of(self.wiki.as_str());
        append_escaped(&mut out, &v5);
        out.push('"');
        out.push('}');
        assert(out@ =~= serialize_rec(self@));
        string_of(&out)
    }
}

/// How a partial scan composes with an already-read value prefix.
pub open spec fn scan_compose(pre: Seq<char>, o: Option<(Seq<char>, int)>) -> Option<
    (Seq<char>, int),
> {
    match o {
        None => None,
        Some((v, e)) => Some((pre + v, e)),
    }
}

/// Reads one quoted field value of `t` starting at `from`, as `scan_value_at`
/// gives it.
fn scan_value(t: &Vec<char>, from: usize) -> (r: Option<(Vec<char>, usize)>)
    ensures
        match r {
            Some(p) => scan_value_at(t@, from as int) == Some((p.0@, p.1 as int)) && from <= p.1
                < t@.len(),
            None => scan_value_at(t@, from as int) is None,
        },
{
    let n = t.len();
    let mut acc: Vec<char> = Vec::new();
    let mut p: usize = from;
    loop
        invariant
            n == t@.len(),
            from <= p,
            scan_value_at(t@, from as int) == scan_compose(acc@, scan_value_at(t@, p as int)),
        decreases n + 1 - p,
    {
        if p >= n {
            return None;
        }
        let c = t[p];
        if c == '"' {
            assert(acc@ + Seq::<char>::empty() =~= acc@);
            return Some((acc, p));
        }
        if c == '\\' {
            if p + 1 < n {
                let c2 = t[p + 1];
                if c2 == '\\' || c2 == '"' {
                    let ghost acc0 = acc@;
                    acc.push(c2);
                    proof {
                        match scan_value_at(t@, p + 2 as int) {
                            None => {},
                            Some((v, e)) => {
                                assert(acc0 + (seq![t@[p + 1]] + v) =~= acc@ + v);
                            },
                        }
                    }
                    p = p + 2;
                } else {
                    return None;
                }
            } else {
                return None;
            }
        } else {
            let ghost acc0 = acc@;
            acc.push(c);
            proof {
                match scan_value_at(t@, p + 1 as int) {
                    None => {},
                    Some((v, e)) => {
                        assert(acc0 + (seq![t@[p as int]] + v) =~= acc@ + v);
                    },
                }
            }
            p = p + 1;
        }
    }
}

/// Parses the serialized text of a record, as `parse_rec` gives it.
pub fn parse_record(t: &Vec<char>) -> (r: Option<CandidateRecord>)
    ensures
        match r {
            Some(rec) => parse_rec(t@) == Some(rec@),
            None => parse_rec(t@) is None,
        },
{
    let _n = t.len();
    let lsim = vec_of("{\"similarity\":\"");
    if !lit_at(t, &lsim, 0) {
        return None;
    }
    let pos1 = lsim.len();
    let (sim, q1) = match scan_value(t, pos1) {
        Some(p) => p,
        None => {
            return None;
        },
    };
    let lname = vec_of(",\"name\":\"");
    if !lit_at(t, &lname, q1 + 1) {
        return None;
    }
    let pos2 = q1 + 1 + lname.len();
    let (name, q2) = match scan_value(t, pos2) {
        Some(p) => p,
        None => {
            return None;
        },
    };
    let lgender = vec_of(",\"gender\":\"");
    if !lit_at(t, &lgender, q2 + 1) {
        return None;
    }
    let pos3 = q2 + 1 + lgender.len();
    let (gender, q3) = match scan_value(t, pos3) {
        Some(p) => p,
        None => {
            return None;
        },
    };
    let limage = vec_of(",\"image\":\"");
    if !lit_at(t, &limage, q3 + 1) {
        return None;
    }
    let pos4 = q3 + 1 + limage.len();
    let (image, q4) = match scan_value(t, pos4) {
        Some(p) => p,
        None => {
            return None;
        },
    };
    let lwiki = vec_of(",\"wiki\":\"");
    if !lit_at(t, &lwiki, q4 + 1) {
        return None;
    }
    let pos5 = q4 + 1 + lwiki.len();
    let (wiki, q5) = match scan_value(t, pos5) {
        Some(p) => p,
        None => {
            return None;
        },
    };
    if t.len() - q5 != 2 {
        return None;
    }
    if t[q5 + 1] != '}' {
        return None;
    }
    Some(
        CandidateRecord {
            similarity: string_of(&sim),
            name: string_of(&name),
            gender: string_of(&gender),
            image: string_of(&image),
            wiki: string_of(&wiki),
        },
    )
}

} // verus!
