//! Text fields: Unicode whitespace trimming and empty-collapsing of optional values.

use vstd::prelude::*;
use vstd::string::StringExecFns;

verus! {

/// The Unicode `White_Space` property, which `str::trim` strips.
pub open spec fn is_white_space(c: char) -> bool {
    let u = c as u32;
    ||| 0x9 <= u <= 0xd
    ||| u == 0x20
    ||| u == 0x85
    ||| u == 0xa0
    ||| u == 0x1680
    ||| 0x2000 <= u <= 0x200a
    ||| u == 0x2028
    ||| u == 0x2029
    ||| u == 0x202f
    ||| u == 0x205f
    ||| u == 0x3000
}

/// `s` without its leading whitespace.
pub open spec fn trim_start(s: Seq<char>) -> Seq<char>
    decreases s.len(),
{
    if s.len() > 0 && is_white_space(s[0]) {
        trim_start(s.drop_first())
    } else {
        s
    }
}

/// `s` without its trailing whitespace.
pub open spec fn trim_end(s: Seq<char>) -> Seq<char>
    decreases s.len(),
{
    if s.len() > 0 && is_white_space(s.last()) {
        trim_end(s.drop_last())
    } else {
        s
    }
}

/// `s` without leading or trailing whitespace.
pub open spec fn trimmed(s: Seq<char>) -> Seq<char> {
    trim_end(trim_start(s))
}

/// The characters of an optional string.
pub open spec fn opt_text(v: Option<String>) -> Option<Seq<char>> {
    match v {
        Some(s) => Some(s@),
        None => None,
    }
}

/// A sanitised optional field: absent when missing or blank, otherwise trimmed.
pub open spec fn clean(v: Option<Seq<char>>) -> Option<Seq<char>> {
    match v {
        Some(s) => if trimmed(s).len() == 0 {
            None
        } else {
            Some(trimmed(s))
        },
        None => None,
    }
}

/// The sanitised values of the present fields, in order.
pub open spec fn present(fields: Seq<Option<Seq<char>>>) -> Seq<Seq<char>>
    decreases fields.len(),
{
    if fields.len() == 0 {
        Seq::empty()
    } else {
        let rest = present(fields.drop_last());
        match clean(fields.last()) {
            Some(t) => rest.push(t),
            None => rest,
        }
    }
}

/// `parts` joined with `sep` between neighbours.
pub open spec fn join(parts: Seq<Seq<char>>, sep: Seq<char>) -> Seq<char>
    decreases parts.len(),
{
    if parts.len() == 0 {
        Seq::empty()
    } else if parts.len() == 1 {
        parts[0]
    } else {
        join(parts.drop_last(), sep) + sep + parts.last()
    }
}

/// The characters of each string.
pub open spec fn texts(v: Seq<String>) -> Seq<Seq<char>> {
    v.map_values(|s: String| s@)
}

/// Appends the sanitised `value` to `parts` when it is present.
pub fn push_if_present(parts: &mut Vec<String>, value: &Option<String>)
    ensures
        texts(final(parts)@) == match clean(opt_text(*value)) {
            Some(t) => texts(old(parts)@).push(t),
            None => texts(old(parts)@),
        },
{
    match sanitize(value) {
        Some(s) => {
            parts.push(s);
            assert(texts(parts@) =~= texts(old(parts)@).push(clean(opt_text(*value))->0));
        },
        None => {},
    }
}

/// Joins `parts` with `sep` between neighbours.
pub fn join_texts(parts: &Vec<String>, sep: &str) -> (r: String)
    ensures
        r@ == join(texts(parts@), sep@),
{
    let mut out = String::new();
    let mut i: usize = 0;
    while i < parts.len()
        invariant
            i <= parts.len(),
            out@ == join(texts(parts@).take(i as int), sep@),
        decreases parts.len() - i,
    {
        let ghost before = texts(parts@).take(i as int);
        if i > 0 {
            out.append(sep);
        }
        out.append(parts[i].as_str());
        assert(texts(parts@).take(i + 1).drop_last() =~= before);
        i += 1;
    }
    assert(texts(parts@).take(parts.len() as int) =~= texts(parts@));
    out
}

/// One more field keeps the earlier present values and adds its own when present.
pub proof fn lemma_present_take_step(fields: Seq<Option<Seq<char>>>, i: int)
    requires
        0 <= i < fields.len(),
    ensures
        present(fields.take(i + 1)) == match clean(fields[i]) {
            Some(t) => present(fields.take(i)).push(t),
            None => present(fields.take(i)),
        },
{
    assert(fields.take(i + 1).drop_last() =~= fields.take(i));
}

/// Relies on `str::trim`: the slice without leading and trailing characters
/// that have the Unicode `White_Space` property.
#[verifier::external_body]
pub(crate) fn trim_text<'a>(s: &'a str) -> (r: &'a str)
    ensures
        r@ == trimmed(s@),
{
    s.trim()
}

/// Trims an optional field and collapses a blank value to `None`.
pub fn sanitize(value: &Option<String>) -> (r: Option<String>)
    ensures
        opt_text(r) == clean(opt_text(*value)),
{
    match value {
        Some(v) => {
            let t = trim_text(v.as_str());
            if t.is_empty() {
                None
            } else {
                Some(t.to_owned())
            }
        },
        None => None,
    }
}

proof fn lemma_trim_start_shape(s: Seq<char>)
    ensures
        trim_start(s).len() > 0 ==> !is_white_space(trim_start(s)[0]),
    decreases s.len(),
{
    if s.len() > 0 && is_white_space(s[0]) {
        lemma_trim_start_shape(s.drop_first());
    }
}

proof fn lemma_trim_end_shape(s: Seq<char>)
    ensures
        trim_end(s).len() <= s.len(),
        trim_end(s) == s.subrange(0, trim_end(s).len() as int),
        trim_end(s).len() > 0 ==> !is_white_space(trim_end(s).last()),
    decreases s.len(),
{
    if s.len() > 0 && is_white_space(s.last()) {
        lemma_trim_end_shape(s.drop_last());
        assert(s.drop_last().subrange(0, trim_end(s).len() as int) =~= s.subrange(
            0,
            trim_end(s).len() as int,
        ));
    } else {
        assert(s.subrange(0, s.len() as int) =~= s);
    }
}

/// Trimming twice is trimming once.
pub proof fn lemma_trimmed_idempotent(s: Seq<char>)
    ensures
        trimmed(trimmed(s)) == trimmed(s),
{
    let t = trim_start(s);
    let u = trim_end(t);
    lemma_trim_start_shape(s);
    lemma_trim_end_shape(t);
    if u.len() > 0 {
        assert(u[0] == t[0]);
    }
    assert(trim_start(u) == u);
    assert(trim_end(u) == u);
}

/// Sanitising is idempotent, and yields `None` exactly for a missing or blank value.
pub proof fn lemma_sanitize_idempotent(v: Option<Seq<char>>)
    ensures
        clean(clean(v)) == clean(v),
        clean(v) is None <==> (v is None || trimmed(v->0).len() == 0),
{
    if let Some(s) = v {
        lemma_trimmed_idempotent(s);
    }
}

/// No character of `s` is `c`.
pub open spec fn avoids(s: Seq<char>, c: char) -> bool {
    forall|i: int| 0 <= i < s.len() ==> s[i] != c
}

/// A present value is free of `c`.
pub open spec fn field_avoids(v: Option<Seq<char>>, c: char) -> bool {
    v matches Some(s) ==> avoids(s, c)
}

proof fn lemma_trim_start_avoids(s: Seq<char>, c: char)
    requires
        avoids(s, c),
    ensures
        avoids(trim_start(s), c),
    decreases s.len(),
{
    if s.len() > 0 && is_white_space(s[0]) {
        let t = s.drop_first();
        assert forall|i: int| 0 <= i < t.len() implies t[i] != c by {
            assert(t[i] == s[i + 1]);
        }
        lemma_trim_start_avoids(t, c);
    }
}

/// Trimming keeps a text free of `c`, and so does sanitising.
pub proof fn lemma_clean_avoids(v: Option<Seq<char>>, c: char)
    requires
        field_avoids(v, c),
    ensures
        field_avoids(clean(v), c),
{
    if let Some(s) = v {
        lemma_trim_start_avoids(s, c);
        let u = trim_start(s);
        lemma_trim_end_shape(u);
        assert forall|i: int| 0 <= i < trimmed(s).len() implies trimmed(s)[i] != c by {
            assert(trimmed(s)[i] == u.subrange(0, trimmed(s).len() as int)[i]);
        }
    }
}

proof fn lemma_present_avoids(fields: Seq<Option<Seq<char>>>, c: char)
    requires
        forall|i: int| 0 <= i < fields.len() ==> field_avoids(#[trigger] fields[i], c),
    ensures
        forall|k: int| 0 <= k < present(fields).len() ==> avoids(#[trigger] present(fields)[k], c),
    decreases fields.len(),
{
    if fields.len() > 0 {
        let init = fields.drop_last();
        assert forall|i: int| 0 <= i < init.len() implies field_avoids(#[trigger] init[i], c) by {
            assert(init[i] == fields[i]);
        }
        lemma_present_avoids(init, c);
        assert(field_avoids(fields[fields.len() - 1], c));
        lemma_clean_avoids(fields.last(), c);
        let rest = present(init);
        if let Some(t) = clean(fields.last()) {
            assert forall|k: int| 0 <= k < present(fields).len() implies avoids(
                #[trigger] present(fields)[k],
                c,
            ) by {
                if k < rest.len() {
                    assert(present(fields)[k] == rest[k]);
                } else {
                    assert(present(fields)[k] == t);
                }
            }
        }
    }
}

proof fn lemma_join_avoids(parts: Seq<Seq<char>>, sep: Seq<char>, c: char)
    requires
        forall|k: int| 0 <= k < parts.len() ==> avoids(#[trigger] parts[k], c),
        avoids(sep, c),
    ensures
        avoids(join(parts, sep), c),
    decreases parts.len(),
{
    if parts.len() > 1 {
        let init = parts.drop_last();
        assert forall|k: int| 0 <= k < init.len() implies avoids(#[trigger] init[k], c) by {
            assert(init[k] == parts[k]);
        }
        lemma_join_avoids(init, sep, c);
        let a = join(init, sep);
        let b = parts.last();
        assert(avoids(b, c));
        assert forall|i: int| 0 <= i < join(parts, sep).len() implies join(parts, sep)[i] != c by {
            if i < a.len() {
                assert(join(parts, sep)[i] == a[i]);
            } else if i < a.len() + sep.len() {
                assert(join(parts, sep)[i] == sep[i - a.len()]);
            } else {
                assert(join(parts, sep)[i] == b[i - a.len() - sep.len()]);
            }
        }
    } else if parts.len() == 1 {
        assert(avoids(parts[0], c));
    }
}

/// Joining the sanitised present fields keeps the result free of `c` when
/// every field and the separator are.
pub proof fn lemma_joined_fields_avoid(fields: Seq<Option<Seq<char>>>, sep: Seq<char>, c: char)
    requires
        forall|i: int| 0 <= i < fields.len() ==> field_avoids(#[trigger] fields[i], c),
        avoids(sep, c),
    ensures
        avoids(join(present(fields), sep), c),
{
    lemma_present_avoids(fields, c);
    lemma_join_avoids(present(fields), sep, c);
}

} // verus!
