//! Field framing for event payloads.
//!
//! A payload is a run of fields, each terminated by `';'`. Inside a field the
//! characters `';'` and `'\'` are escaped with a leading `'\'`, so arbitrary
//! strings ride the frame unharmed and decoding is the exact inverse of
//! encoding.

use vstd::prelude::*;
use vstd::string::*;

verus! {

/// How one character is written inside a field.
pub open spec fn esc_char(c: char) -> Seq<char> {
    if c == ';' || c == '\\' {
        seq!['\\', c]
    } else {
        seq![c]
    }
}

/// How a whole string is written inside a field.
pub open spec fn escape(s: Seq<char>) -> Seq<char>
    decreases s.len(),
{
    if s.len() == 0 {
        Seq::empty()
    } else {
        esc_char(s[0]) + escape(s.drop_first())
    }
}

/// One encoded field: the escaped string plus its `';'` terminator.
pub open spec fn enc_field(s: Seq<char>) -> Seq<char> {
    escape(s) + seq![';']
}

/// Parses one field off the front of `s`: the decoded field and the
/// remainder after the terminator, or nothing if `s` holds no complete field.
pub open spec fn parse_field(s: Seq<char>) -> Option<(Seq<char>, Seq<char>)>
    decreases s.len(),
{
    if s.len() == 0 {
        None
    } else if s[0] == ';' {
        Some((Seq::<char>::empty(), s.drop_first()))
    } else if s[0] == '\\' {
        if s.len() < 2 {
            None
        } else {
            match parse_field(s.subrange(2, s.len() as int)) {
                Some(p) => Some((seq![s[1]] + p.0, p.1)),
                None => None,
            }
        }
    } else {
        match parse_field(s.drop_first()) {
            Some(p) => Some((seq![s[0]] + p.0, p.1)),
            None => None,
        }
    }
}

/// Escaping distributes over appending one character.
pub proof fn lemma_escape_snoc(s: Seq<char>, c: char)
    ensures
        escape(s.push(c)) == escape(s) + esc_char(c),
    decreases s.len(),
{
    if s.len() == 0 {
        assert(s.push(c).drop_first() =~= Seq::<char>::empty());
        assert(s.push(c)[0] == c);
        assert(escape(Seq::<char>::empty()) =~= Seq::<char>::empty());
        assert(escape(s.push(c)) =~= escape(s) + esc_char(c));
    } else {
        assert(s.push(c).drop_first() =~= s.drop_first().push(c));
        assert(s.push(c)[0] == s[0]);
        lemma_escape_snoc(s.drop_first(), c);
        assert(escape(s.push(c)) =~= escape(s) + esc_char(c));
    }
}

/// Parsing an encoded field peels off exactly that field: the frame round
/// trips, whatever the field holds and whatever follows it.
pub proof fn lemma_parse_enc_field(s: Seq<char>, rest: Seq<char>)
    ensures
        parse_field(enc_field(s) + rest) == Some((s, rest)),
    decreases s.len(),
{
    let t = enc_field(s) + rest;
    if s.len() == 0 {
        assert(s =~= Seq::<char>::empty());
        assert(escape(s) =~= Seq::<char>::empty());
        assert(t =~= seq![';'] + rest);
        assert(t[0] == ';');
        assert(t.drop_first() =~= rest);
    } else {
        let c = s[0];
        assert(enc_field(s) =~= esc_char(c) + enc_field(s.drop_first()));
        lemma_parse_enc_field(s.drop_first(), rest);
        if c == ';' || c == '\\' {
            assert(t[0] == '\\');
            assert(t[1] == c);
            assert(t.len() >= 2);
            assert(t.subrange(2, t.len() as int) =~= enc_field(s.drop_first()) + rest);
            assert(seq![c] + s.drop_first() =~= s);
        } else {
            assert(t[0] == c);
            assert(t.drop_first() =~= enc_field(s.drop_first()) + rest);
            assert(seq![c] + s.drop_first() =~= s);
        }
    }
}

/// Relies on std's `String::push`: appends exactly the given character.
#[verifier::external_body]
fn push_char(s: &mut String, c: char)
    ensures
        final(s)@ == old(s)@.push(c),
{
    s.push(c);
}

/// Collects the characters of a string slice into a vector.
pub fn str_to_chars(s: &str) -> (r: Vec<char>)
    ensures
        r@ == s@,
{
    let n = s.unicode_len();
    let mut r: Vec<char> = Vec::new();
    let mut i: usize = 0;
    while i < n
        invariant
            i <= n,
            n == s@.len(),
            r@ == s@.take(i as int),
        decreases n - i,
    {
        r.push(s.get_char(i));
        proof {
            assert(s@.take(i + 1 as int) =~= s@.take(i as int).push(s@[i as int]));
        }
        i += 1;
    }
    proof {
        assert(s@.take(n as int) =~= s@);
    }
    r
}

/// Builds a string from a vector of characters.
pub fn chars_to_string(v: &Vec<char>) -> (r: String)
    ensures
        r@ == v@,
{
    let mut r = String::new();
    let mut i: usize = 0;
    while i < v.len()
        invariant
            i <= v.len(),
            r@ == v@.take(i as int),
        decreases v.len() - i,
    {
        push_char(&mut r, v[i]);
        proof {
            assert(v@.take(i + 1 as int) =~= v@.take(i as int).push(v@[i as int]));
        }
        i += 1;
    }
    proof {
        assert(v@.take(v@.len() as int) =~= v@);
    }
    r
}

/// Appends one encoded field to the output frame.
pub fn append_enc_field(out: &mut Vec<char>, s: &str)
    ensures
        final(out)@ == old(out)@ + enc_field(s@),
{
    let n = s.unicode_len();
    let mut i: usize = 0;
    while i < n
        invariant
            i <= n,
            n == s@.len(),
            out@ == old(out)@ + escape(s@.take(i as int)),
        decreases n - i,
    {
        let c = s.get_char(i);
        if c == ';' || c == '\\' {
            out.push('\\');
        }
        out.push(c);
        proof {
            assert(s@.take(i + 1 as int) =~= s@.take(i as int).push(s@[i as int]));
            lemma_escape_snoc(s@.take(i as int), s@[i as int]);
            assert(out@ =~= old(out)@ + escape(s@.take(i + 1 as int)));
        }
        i += 1;
    }
    out.push(';');
    proof {
        assert(s@.take(n as int) =~= s@);
        assert(out@ =~= old(out)@ + enc_field(s@));
    }
}

/// Parses one field of the frame `v` starting at `i`, returning the decoded
/// field and the position just past its terminator.
pub fn parse_field_at(v: &Vec<char>, i: usize) -> (r: Option<(Vec<char>, usize)>)
    requires
        i <= v.len(),
    ensures
        match r {
            Some(p) => {
                &&& i < p.1 <= v@.len()
                &&& parse_field(v@.skip(i as int)) == Some((p.0@, v@.skip(p.1 as int)))
            },
            None => parse_field(v@.skip(i as int)) is None,
        },
    decreases v.len() - i,
{
    if i == v.len() {
        proof {
            assert(v@.skip(i as int) =~= Seq::<char>::empty());
        }
        None
    } else {
        let c = v[i];
        proof {
            assert(v@.skip(i as int)[0] == c);
        }
        if c == ';' {
            let f: Vec<char> = Vec::new();
            proof {
                assert(v@.skip(i as int).drop_first() =~= v@.skip(i as int + 1));
            }
            Some((f, i + 1))
        } else if c == '\\' {
            if v.len() - i < 2 {
                None
            } else {
                let lit = v[i + 1];
                proof {
                    let s = v@.skip(i as int);
                    assert(s.subrange(2, s.len() as int) =~= v@.skip(i + 2 as int));
                    assert(s[1] == lit);
                }
                match parse_field_at(v, i + 2) {
                    Some((f, j)) => {
                        let ghost f_view = f@;
                        let mut nf: Vec<char> = Vec::new();
                        nf.push(lit);
                        let mut tail = f;
                        nf.append(&mut tail);
                        proof {
                            assert(nf@ =~= seq![lit] + f_view);
                        }
                        Some((nf, j))
                    },
                    None => None,
                }
            }
        } else {
            proof {
                assert(v@.skip(i as int).drop_first() =~= v@.skip(i + 1 as int));
            }
            match parse_field_at(v, i + 1) {
                Some((f, j)) => {
                    let ghost f_view = f@;
                    let mut nf: Vec<char> = Vec::new();
                    nf.push(c);
                    let mut tail = f;
                    nf.append(&mut tail);
                    proof {
                        assert(nf@ =~= seq![c] + f_view);
                    }
                    Some((nf, j))
                },
                None => None,
            }
        }
    }
}


/// Builds a string from a range of a character vector.
pub fn chars_range_to_string(v: &Vec<char>, from: usize, to: usize) -> (r: String)
    requires
        from <= to <= v@.len(),
    ensures
        r@ == v@.subrange(from as int, to as int),
{
    let mut r = String::new();
    let mut j: usize = from;
    while j < to
        invariant
            from <= j <= to <= v@.len(),
            r@ == v@.subrange(from as int, j as int),
        decreases to - j,
    {
        push_char(&mut r, v[j]);
        proof {
            assert(v@.subrange(from as int, j + 1 as int) =~= v@.subrange(
                from as int,
                j as int,
            ).push(v@[j as int]));
        }
        j += 1;
    }
    r
}

} // verus!
