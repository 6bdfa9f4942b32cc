//! Connection strings of the form "protocol://key1=value1;key2=value2".
use vstd::prelude::*;
use vstd::string::StrSliceExecFns;

use crate::mechaflow_core::error::{join, owned};
use crate::mechaflow_devices::device::{DeviceError, Result};
use crate::str_map::{entries_map, has_key, key_index, keys_unique, lemma_key_index_unique, StrMap};
use crate::text::{chars_of, find_from, occurs_at};

verus! {

/// The pieces of `s` between occurrences of `c` (at least one piece).
pub open spec fn split_segments(s: Seq<char>, c: char) -> Seq<Seq<char>>
    decreases s.len(),
{
    if s.len() == 0 {
        seq![Seq::empty()]
    } else {
        let rest = split_segments(s.drop_last(), c);
        if s.last() == c {
            rest.push(Seq::empty())
        } else {
            rest.update(rest.len() - 1, rest.last().push(s.last()))
        }
    }
}

/// `c` occurs in `s`.
pub open spec fn has_char(s: Seq<char>, c: char) -> bool {
    exists|q: int| 0 <= q < s.len() && s[q] == c
}

/// The first position of `c` in `s` (meaningful when it occurs).
pub open spec fn first_char(s: Seq<char>, c: char) -> int {
    choose|q: int| 0 <= q < s.len() && s[q] == c && forall|j: int| 0 <= j < q ==> s[j] != c
}

/// The first position where `pat` occurs in `s` (meaningful when it does).
pub open spec fn first_occurrence(s: Seq<char>, pat: Seq<char>) -> int {
    choose|p: int| occurs_at(s, pat, p) && forall|k: int| 0 <= k < p ==> !occurs_at(s, pat, k)
}

/// The parameters named by the pieces, in order: empty pieces are skipped,
/// a piece splits at its first '=' into key and value (a later key wins),
/// and the first piece without '=' is an error carrying that piece.
pub open spec fn param_entries(segs: Seq<Seq<char>>) -> std::result::Result<
    Map<Seq<char>, Seq<char>>,
    Seq<char>,
>
    decreases segs.len(),
{
    if segs.len() == 0 {
        Ok(Map::empty())
    } else {
        match param_entries(segs.drop_last()) {
            Err(bad) => Err(bad),
            Ok(m) => {
                let seg = segs.last();
                if seg.len() == 0 {
                    Ok(m)
                } else if !has_char(seg, '=') {
                    Err(seg)
                } else {
                    let q = first_char(seg, '=');
                    Ok(m.insert(seg.take(q), seg.skip(q + 1)))
                }
            },
        }
    }
}

/// What parsing a connection string gives: the protocol before the first
/// "://" and the parameters after it, or the message of the error.
pub open spec fn parse_connection_spec(s: Seq<char>) -> std::result::Result<
    (Seq<char>, Map<Seq<char>, Seq<char>>),
    Seq<char>,
> {
    if !(exists|p: int| occurs_at(s, "://"@, p)) {
        Err("Invalid connection string format: "@ + s)
    } else {
        let p = first_occurrence(s, "://"@);
        match param_entries(split_segments(s.skip(p + 3), ';')) {
            Err(bad) => Err("Invalid parameter format in connection string: "@ + bad),
            Ok(m) => Ok((s.take(p), m)),
        }
    }
}

/// An error in an earlier piece stays the error whatever follows.
proof fn lemma_param_error_persists(a: Seq<Seq<char>>, c: Seq<Seq<char>>)
    requires
        param_entries(a) is Err,
    ensures
        param_entries(a + c) == param_entries(a),
    decreases c.len(),
{
    if c.len() == 0 {
        assert(a + c =~= a);
    } else {
        lemma_param_error_persists(a, c.drop_last());
        assert((a + c).drop_last() =~= a + c.drop_last());
    }
}

/// Splitting gives at least one piece.
proof fn lemma_split_nonempty(s: Seq<char>, c: char)
    ensures
        split_segments(s, c).len() >= 1,
    decreases s.len(),
{
    if s.len() > 0 {
        lemma_split_nonempty(s.drop_last(), c);
    }
}

/// The complete pieces of a prefix are the first pieces of the whole.
proof fn lemma_split_prefix(s: Seq<char>, k: int)
    requires
        0 <= k <= s.len(),
    ensures
        split_segments(s.take(k), ';').len() <= split_segments(s, ';').len(),
        split_segments(s, ';').take(split_segments(s.take(k), ';').len() - 1) == split_segments(
            s.take(k),
            ';',
        ).drop_last(),
    decreases s.len(),
{
    lemma_split_nonempty(s.take(k), ';');
    if k == s.len() {
        assert(s.take(k) =~= s);
        let b = split_segments(s, ';');
        assert(b.take(b.len() - 1) =~= b.drop_last());
    } else {
        lemma_split_prefix(s.drop_last(), k);
        assert(s.drop_last().take(k) =~= s.take(k));
        lemma_split_nonempty(s.drop_last(), ';');
        let a = split_segments(s.take(k), ';');
        let rest = split_segments(s.drop_last(), ';');
        let b = split_segments(s, ';');
        assert(b.take(a.len() - 1) =~= rest.take(a.len() - 1));
    }
}

/// The text of a map of strings.
pub open spec fn text_map(m: Map<Seq<char>, String>) -> Map<Seq<char>, Seq<char>> {
    m.map_values(|v: String| v@)
}

/// The first position of `c` in `v` from `from` on, before `to`.
fn find_char(v: &Vec<char>, c: char, from: usize, to: usize) -> (r: Option<usize>)
    requires
        from <= to <= v@.len(),
    ensures
        match r {
            Some(q) => from <= q < to && v@[q as int] == c && forall|j: int|
                from <= j < q ==> v@[j] != c,
            None => forall|j: int| from <= j < to ==> v@[j] != c,
        },
{
    let mut i = from;
    while i < to
        invariant
            from <= i <= to,
            to <= v@.len(),
            forall|j: int| from <= j < i ==> v@[j] != c,
        decreases to - i,
    {
        if v[i] == c {
            return Some(i);
        }
        i = i + 1;
    }
    None
}

/// Parse a connection string "protocol://param1=value1;param2=value2" into
/// its protocol and parameters.
#[verifier::loop_isolation(false)]
#[verifier::rlimit(50)]
#[verifier::spinoff_prover]
pub fn parse_connection_string(conn_str: &str) -> (r: Result<(String, StrMap<String>)>)
    ensures
        match parse_connection_spec(conn_str@) {
            Ok((p, m)) => r matches Ok(v) && v.0@ == p && text_map(v.1@) == m,
            Err(msg) => r matches Err(DeviceError::Other(e)) && e@ == msg,
        },
{
    proof {
        reveal_strlit("://");
    }
    let s = chars_of(conn_str);
    let sep = chars_of("://");
    let p = match find_from(&s, &sep, 0) {
        Some(p) => p,
        None => {
            proof {
                assert(!(exists|p: int| occurs_at(conn_str@, "://"@, p))) by {
                    if exists|p: int| occurs_at(conn_str@, "://"@, p) {
                        let p = choose|p: int| occurs_at(conn_str@, "://"@, p);
                    }
                }
            }
            return Err(DeviceError::Other(join("Invalid connection string format: ", conn_str)));
        },
    };
    proof {
        let q = first_occurrence(conn_str@, "://"@);
        assert(occurs_at(conn_str@, "://"@, p as int));
        assert(q == p) by {
            if q < p {
            } else if q > p {
            }
        }
    }
    let n = s.len();
    let protocol = owned(conn_str.substring_char(0, p));
    let params_str = conn_str.substring_char(p + 3, n);
    let ps = chars_of(params_str);
    let ghost whole = ps@;
    let mut params: StrMap<String> = StrMap::new();
    let ghost mut done: Seq<Seq<char>> = Seq::empty();
    let mut start: usize = 0;
    let mut i: usize = 0;
    let m = ps.len();
    proof {
        assert(whole.take(0) =~= Seq::<char>::empty());
        assert(whole.subrange(0, 0) =~= Seq::<char>::empty());
        assert(split_segments(Seq::<char>::empty(), ';') == seq![Seq::<char>::empty()]);
        assert(seq![Seq::<char>::empty()] =~= done.push(whole.subrange(0, 0)));
        assert(text_map(params@) =~= Map::<Seq<char>, Seq<char>>::empty());
    }
    loop
        invariant
            m == whole.len(),
            whole == ps@,
            start <= i,
            i <= m,
            split_segments(whole.take(i as int), ';') == done.push(
                whole.subrange(start as int, i as int),
            ),
            param_entries(done) == Ok::<Map<Seq<char>, Seq<char>>, Seq<char>>(text_map(params@)),
        decreases m - i,
    {
        if i == m || ps[i] == ';' {
            let ghost seg = whole.subrange(start as int, i as int);
            if start < i {
                match find_char(&ps, '=', start, i) {
                    Some(q) => {
                        let key = owned(params_str.substring_char(start, q));
                        let value = owned(params_str.substring_char(q + 1, i));
                        let ghost before = params@;
                        params.insert(key, value);
                        proof {
                            let qq = q - start;
                            assert(seg[qq as int] == '=');
                            assert(has_char(seg, '='));
                            let f = first_char(seg, '=');
                            assert(f == qq) by {
                                if f < qq {
                                    assert(whole[start + f] == seg[f]);
                                } else if f > qq {
                                }
                            }
                            assert(seg.take(qq as int) =~= whole.subrange(start as int, q as int));
                            assert(seg.skip(qq + 1) =~= whole.subrange(q + 1, i as int));
                            assert((done.push(seg)).drop_last() =~= done);
                            assert(text_map(params@) =~= text_map(before).insert(seg.take(qq as int), seg.skip(qq + 1)));
                        }
                    },
                    None => {
                        proof {
                            assert(!has_char(seg, '=')) by {
                                if has_char(seg, '=') {
                                    let x = choose|x: int| 0 <= x < seg.len() && seg[x] == '=';
                                    assert(whole[start + x] == '=');
                                }
                            }
                            assert((done.push(seg)).drop_last() =~= done);
                            let pre = done.push(seg);
                            assert(param_entries(pre) == Err::<Map<Seq<char>, Seq<char>>, Seq<char>>(seg));
                            let full = split_segments(whole, ';');
                            if i < m {
                                assert(whole.take(i + 1).drop_last() =~= whole.take(i as int));
                                assert(whole.take(i + 1).last() == ';');
                                assert(split_segments(whole.take(i + 1), ';') == pre.push(Seq::<char>::empty()));
                                lemma_split_prefix(whole, i + 1);
                                assert(pre.push(Seq::<char>::empty()).drop_last() =~= pre);
                            } else {
                                assert(whole.take(m as int) =~= whole);
                            }
                            assert(full.take(pre.len() as int) =~= pre);
                            assert(full =~= pre + full.skip(pre.len() as int));
                            lemma_param_error_persists(pre, full.skip(pre.len() as int));
                            assert(seg =~= params_str@.subrange(start as int, i as int));
                        }
                        let bad = params_str.substring_char(start, i);
                        return Err(
                            DeviceError::Other(
                                join("Invalid parameter format in connection string: ", bad),
                            ),
                        );
                    },
                }
            } else {
                proof {
                    assert((done.push(seg)).drop_last() =~= done);
                    assert(seg.len() == 0);
                }
            }
            proof {
                done = done.push(seg);
            }
            if i == m {
                proof {
                    assert(whole.take(m as int) =~= whole);
                    assert(params_str@ =~= conn_str@.skip(p + 3));
                    assert(protocol@ =~= conn_str@.take(p as int));
                }
                break;
            }
            proof {
                assert(whole.take(i + 1).drop_last() =~= whole.take(i as int));
                assert(whole.subrange(i + 1, i + 1) =~= Seq::<char>::empty());
            }
            start = i + 1;
        } else {
            proof {
                assert(whole.take(i + 1).drop_last() =~= whole.take(i as int));
                assert(whole.subrange(start as int, i + 1) =~= whole.subrange(start as int, i as int).push(whole[i as int]));
            }
        }
        i = i + 1;
    }
    Ok((protocol, params))
}


/// The "key=value" pieces of the entries, in order.
pub open spec fn param_pieces(entries: Seq<(String, String)>) -> Seq<Seq<char>> {
    entries.map_values(|e: (String, String)| e.0@ + "="@ + e.1@)
}

/// The connection string of a protocol and parameter entries.
pub open spec fn connection_text(protocol: Seq<char>, entries: Seq<(String, String)>) -> Seq<char> {
    protocol + "://"@ + crate::text::join_texts(param_pieces(entries), ";"@)
}

/// Build a connection string from protocol and parameters, the parameters
/// in the map's order
pub fn build_connection_string(protocol: &str, params: &StrMap<String>) -> (r: String)
    ensures
        r@ == connection_text(protocol@, params.entry_seq()),
{
    let n = params.len();
    let mut pieces: Vec<String> = Vec::new();
    let mut i: usize = 0;
    while i < n
        invariant
            n == params.entry_seq().len(),
            i <= n,
            pieces@.len() == i,
            forall|j: int|
                0 <= j < i ==> (#[trigger] pieces@[j])@ == params.entry_seq()[j].0@ + "="@
                    + params.entry_seq()[j].1@,
        decreases n - i,
    {
        let (k, v) = params.entry_at(i);
        let a = join(k.as_str(), "=");
        pieces.push(join(a.as_str(), v.as_str()));
        i = i + 1;
    }
    let joined = crate::text::join_all(&pieces, ";");
    proof {
        assert(pieces@.map_values(|x: String| x@) =~= param_pieces(params.entry_seq()));
    }
    let a = join(protocol, "://");
    join(a.as_str(), joined.as_str())
}

/// Splitting a text without `c` gives the text itself as the one piece.
proof fn lemma_split_free(s: Seq<char>, c: char)
    requires
        !has_char(s, c),
    ensures
        split_segments(s, c) == seq![s],
    decreases s.len(),
{
    if s.len() > 0 {
        let t = s.drop_last();
        assert(!has_char(t, c)) by {
            if has_char(t, c) {
                let q = choose|q: int| 0 <= q < t.len() && t[q] == c;
                assert(s[q] == c);
            }
        }
        lemma_split_free(t, c);
        assert(s.last() != c) by {
            assert(s[s.len() - 1] == s.last());
        }
        assert(t.push(s.last()) =~= s);
        assert(seq![t].update(0, t.push(s.last())) =~= seq![s]);
    } else {
        assert(s =~= Seq::<char>::empty());
    }
}

/// Appending a text without `c` extends the last piece.
proof fn lemma_split_append_free(a: Seq<char>, b: Seq<char>, c: char)
    requires
        !has_char(b, c),
    ensures
        split_segments(a + b, c) == split_segments(a, c).update(
            split_segments(a, c).len() - 1,
            split_segments(a, c).last() + b,
        ),
    decreases b.len(),
{
    lemma_split_nonempty(a, c);
    if b.len() == 0 {
        assert(a + b =~= a);
        let sa = split_segments(a, c);
        assert(sa.last() + b =~= sa.last());
        assert(sa.update(sa.len() - 1, sa.last()) =~= sa);
    } else {
        let b0 = b.drop_last();
        assert(!has_char(b0, c)) by {
            if has_char(b0, c) {
                let q = choose|q: int| 0 <= q < b0.len() && b0[q] == c;
                assert(b[q] == c);
            }
        }
        lemma_split_append_free(a, b0, c);
        assert((a + b).drop_last() =~= a + b0);
        assert((a + b).last() == b.last());
        assert(b.last() != c) by {
            assert(b[b.len() - 1] == b.last());
        }
        let sa = split_segments(a, c);
        let r0 = split_segments(a + b0, c);
        lemma_split_nonempty(a + b0, c);
        assert(r0.len() == sa.len());
        assert(r0.last() == sa.last() + b0);
        assert((sa.last() + b0).push(b.last()) =~= sa.last() + b);
        assert(r0.update(r0.len() - 1, r0.last().push(b.last())) =~= sa.update(
            sa.len() - 1,
            sa.last() + b,
        ));
    }
}

/// Splitting texts joined with a separator that none of them holds gives
/// the texts back.
proof fn lemma_split_join(parts: Seq<Seq<char>>, c: char)
    requires
        parts.len() >= 1,
        forall|j: int| 0 <= j < parts.len() ==> !has_char(#[trigger] parts[j], c),
    ensures
        split_segments(crate::text::join_texts(parts, seq![c]), c) == parts,
    decreases parts.len(),
{
    if parts.len() == 1 {
        lemma_split_free(parts[0], c);
        assert(seq![parts[0]] =~= parts);
    } else {
        let init = parts.drop_last();
        assert(forall|j: int| 0 <= j < init.len() ==> #[trigger] init[j] == parts[j]);
        lemma_split_join(init, c);
        let j0 = crate::text::join_texts(init, seq![c]);
        let a = j0 + seq![c];
        assert(!has_char(parts.last(), c)) by {
            assert(parts[parts.len() - 1] == parts.last());
        }
        lemma_split_append_free(a, parts.last(), c);
        assert(a.drop_last() =~= j0);
        assert(a.last() == c);
        assert(split_segments(a, c) == init.push(Seq::<char>::empty()));
        assert(a + parts.last() =~= crate::text::join_texts(parts, seq![c]));
        let sa = init.push(Seq::<char>::empty());
        assert(Seq::<char>::empty() + parts.last() =~= parts.last());
        assert(sa.update(sa.len() - 1, sa.last() + parts.last()) =~= parts);
    }
}

/// With unique keys, the map of a list is that of its first entries with
/// the last entry added.
proof fn lemma_entries_map_push<V>(s: Seq<(String, V)>)
    requires
        keys_unique(s),
        s.len() > 0,
    ensures
        keys_unique(s.drop_last()),
        entries_map(s) == entries_map(s.drop_last()).insert(s.last().0@, s.last().1),
{
    let t = s.drop_last();
    let n = s.len() - 1;
    assert(keys_unique(t)) by {
        assert forall|i: int, j: int|
            0 <= i < t.len() && 0 <= j < t.len() && i != j implies #[trigger] t[i].0@
            != #[trigger] t[j].0@ by {
            assert(t[i] == s[i] && t[j] == s[j]);
        }
    }
    assert(s[n] == s.last());
    lemma_key_index_unique(s, n);
    assert forall|k: Seq<char>| #[trigger] entries_map(s).contains_key(k) <==> entries_map(t).insert(
        s.last().0@,
        s.last().1,
    ).contains_key(k) by {
        if has_key(s, k) && k != s.last().0@ {
            let i = key_index(s, k);
            assert(t[i] == s[i]);
        }
        if has_key(t, k) {
            let i = key_index(t, k);
            assert(s[i] == t[i]);
        }
    }
    assert forall|k: Seq<char>| #[trigger] entries_map(s).contains_key(k) implies entries_map(s)[k]
        == entries_map(t).insert(s.last().0@, s.last().1)[k] by {
        if k != s.last().0@ {
            let i = key_index(s, k);
            assert(0 <= i < s.len() && s[i].0@ == k);
            assert(i != n);
            lemma_key_index_unique(s, i);
            assert(t[i] == s[i]);
            lemma_key_index_unique(t, i);
        }
    }
    assert(entries_map(s) =~= entries_map(t).insert(s.last().0@, s.last().1));
}

/// No key holds ';' or '=' and no value holds ';'.
pub open spec fn plain_params(entries: Seq<(String, String)>) -> bool {
    forall|j: int|
        0 <= j < entries.len() ==> {
            let e = #[trigger] entries[j];
            &&& !has_char(e.0@, ';')
            &&& !has_char(e.0@, '=')
            &&& !has_char(e.1@, ';')
        }
}

/// The "key=value" pieces name the parameters of the entries.
proof fn lemma_param_entries_of_pieces(entries: Seq<(String, String)>)
    requires
        keys_unique(entries),
        plain_params(entries),
    ensures
        param_entries(param_pieces(entries)) == Ok::<Map<Seq<char>, Seq<char>>, Seq<char>>(
            text_map(entries_map(entries)),
        ),
    decreases entries.len(),
{
    reveal_strlit("=");
    if entries.len() == 0 {
        assert(param_pieces(entries) =~= Seq::<Seq<char>>::empty());
        assert(text_map(entries_map(entries)) =~= Map::<Seq<char>, Seq<char>>::empty());
    } else {
        let t = entries.drop_last();
        lemma_entries_map_push(entries);
        assert(plain_params(t)) by {
            assert forall|j: int| 0 <= j < t.len() implies {
                let e = #[trigger] t[j];
                &&& !has_char(e.0@, ';')
                &&& !has_char(e.0@, '=')
                &&& !has_char(e.1@, ';')
            } by {
                assert(t[j] == entries[j]);
            }
        }
        lemma_param_entries_of_pieces(t);
        let pieces = param_pieces(entries);
        assert(pieces.drop_last() =~= param_pieces(t));
        let last = entries.last();
        assert(entries[entries.len() - 1] == last);
        let k = last.0@;
        let v = last.1@;
        let seg = pieces.last();
        assert(seg == k + "="@ + v);
        assert(seg[k.len() as int] == '=');
        assert(has_char(seg, '='));
        let f = first_char(seg, '=');
        assert(f == k.len()) by {
            if f < k.len() {
                assert(seg[f] == k[f]);
            } else if f > k.len() {
            }
        }
        assert(seg.take(f) =~= k);
        assert(seg.skip(f + 1) =~= v);
        assert(text_map(entries_map(entries)) =~= text_map(entries_map(t)).insert(k, v));
    }
}

/// The first "://" of a protocol without one, followed by "://", is the one
/// after the protocol.
proof fn lemma_first_separator(protocol: Seq<char>, rest: Seq<char>)
    requires
        !(exists|i: int| occurs_at(protocol, "://"@, i)),
    ensures
        ({
            let s = protocol + "://"@ + rest;
            &&& exists|p: int| occurs_at(s, "://"@, p)
            &&& first_occurrence(s, "://"@) == protocol.len()
            &&& s.take(protocol.len() as int) == protocol
            &&& s.skip(protocol.len() as int + 3) == rest
        }),
{
    reveal_strlit("://");
    let s = protocol + "://"@ + rest;
    let n = protocol.len() as int;
    assert(s.subrange(n, n + 3) =~= "://"@);
    assert(occurs_at(s, "://"@, n));
    assert forall|k: int| 0 <= k < n implies !occurs_at(s, "://"@, k) by {
        if occurs_at(s, "://"@, k) {
            if k + 3 <= n {
                assert(protocol.subrange(k, k + 3) =~= s.subrange(k, k + 3));
                assert(occurs_at(protocol, "://"@, k));
            } else if k + 2 == n {
                assert(s[k + 2] == "://"@[0]);
                assert(s.subrange(k, k + 3)[2] == s[k + 2]);
            } else {
                assert(s[k + 1] == "://"@[0]);
                assert(s.subrange(k, k + 3)[1] == s[k + 1]);
            }
        }
    }
    let q = first_occurrence(s, "://"@);
    assert(q == n) by {
        if q < n {
        } else if q > n {
        }
    }
    assert(s.take(n) =~= protocol);
    assert(s.skip(n + 3) =~= rest);
}

/// No "key=value" piece of plain parameters holds ';'.
proof fn lemma_pieces_plain(entries: Seq<(String, String)>)
    requires
        plain_params(entries),
    ensures
        forall|j: int|
            0 <= j < param_pieces(entries).len() ==> !has_char(#[trigger] param_pieces(entries)[j], ';'),
{
    reveal_strlit("=");
    let pieces = param_pieces(entries);
    assert forall|j: int| 0 <= j < pieces.len() implies !has_char(#[trigger] pieces[j], ';') by {
        let e = entries[j];
        assert(pieces[j] == e.0@ + "="@ + e.1@);
        if has_char(pieces[j], ';') {
            let q = choose|q: int| 0 <= q < pieces[j].len() && pieces[j][q] == ';';
            if q < e.0@.len() {
                assert(e.0@[q] == ';');
            } else if q == e.0@.len() {
            } else {
                assert(e.1@[q - e.0@.len() - 1] == ';');
            }
        }
    }
}

/// The parameter part of a built connection string names its parameters.
proof fn lemma_parameter_part(entries: Seq<(String, String)>)
    requires
        keys_unique(entries),
        plain_params(entries),
    ensures
        param_entries(split_segments(crate::text::join_texts(param_pieces(entries), ";"@), ';'))
            == Ok::<Map<Seq<char>, Seq<char>>, Seq<char>>(text_map(entries_map(entries))),
{
    reveal_strlit(";");
    let pieces = param_pieces(entries);
    let joined = crate::text::join_texts(pieces, ";"@);
    assert(";"@ =~= seq![';']);
    lemma_param_entries_of_pieces(entries);
    if entries.len() == 0 {
        assert(pieces =~= Seq::<Seq<char>>::empty());
        assert(joined == Seq::<char>::empty());
        assert(split_segments(joined, ';') == seq![Seq::<char>::empty()]);
        assert(seq![Seq::<char>::empty()].drop_last() =~= Seq::<Seq<char>>::empty());
        assert(text_map(entries_map(entries)) =~= Map::<Seq<char>, Seq<char>>::empty());
    } else {
        lemma_pieces_plain(entries);
        lemma_split_join(pieces, ';');
    }
}

/// A connection string built from a protocol and parameters parses back to
/// that protocol and those parameters, provided the protocol holds no
/// "://", no key holds ';' or '=', and no value holds ';'.
pub proof fn lemma_connection_string_round_trip(protocol: Seq<char>, entries: Seq<(String, String)>)
    requires
        !(exists|i: int| occurs_at(protocol, "://"@, i)),
        keys_unique(entries),
        plain_params(entries),
    ensures
        parse_connection_spec(connection_text(protocol, entries)) == Ok::<
            (Seq<char>, Map<Seq<char>, Seq<char>>),
            Seq<char>,
        >((protocol, text_map(entries_map(entries)))),
{
    let joined = crate::text::join_texts(param_pieces(entries), ";"@);
    lemma_first_separator(protocol, joined);
    lemma_parameter_part(entries);
}

/// A parameter piece is empty or holds '='.
pub open spec fn piece_well_formed(seg: Seq<char>) -> bool {
    seg.len() == 0 || has_char(seg, '=')
}

/// A non-empty piece with '=' whose text before its first '=' is `k`.
pub open spec fn piece_names(seg: Seq<char>, k: Seq<char>) -> bool {
    seg.len() > 0 && has_char(seg, '=') && seg.take(first_char(seg, '=')) == k
}

/// The text of a piece after its first '='.
pub open spec fn piece_value(seg: Seq<char>) -> Seq<char> {
    seg.skip(first_char(seg, '=') + 1)
}

/// The map of the pieces: each key named by some piece, with the value of
/// the last piece naming it.
pub open spec fn names_last_wins(segs: Seq<Seq<char>>, m: Map<Seq<char>, Seq<char>>) -> bool {
    &&& forall|k: Seq<char>|
        #[trigger] m.contains_key(k) <==> exists|i: int| 0 <= i < segs.len() && piece_names(#[trigger] segs[i], k)
    &&& forall|k: Seq<char>|
        #[trigger] m.contains_key(k) ==> exists|i: int|
            0 <= i < segs.len() && piece_names(#[trigger] segs[i], k) && m[k] == piece_value(segs[i])
                && forall|j: int| i < j < segs.len() ==> !piece_names(#[trigger] segs[j], k)
}

/// An empty piece adds no parameter.
proof fn lemma_names_push_empty(init: Seq<Seq<char>>, seg: Seq<char>, m: Map<Seq<char>, Seq<char>>)
    requires
        seg.len() == 0,
        names_last_wins(init, m),
    ensures
        names_last_wins(init.push(seg), m),
{
    let segs = init.push(seg);
    let n = init.len() as int;
    assert forall|k: Seq<char>| #[trigger] m.contains_key(k) <==> exists|i: int|
        0 <= i < segs.len() && piece_names(#[trigger] segs[i], k) by {
        if m.contains_key(k) {
            let i = choose|i: int| 0 <= i < init.len() && piece_names(#[trigger] init[i], k);
            assert(segs[i] == init[i]);
        }
        if exists|i: int| 0 <= i < segs.len() && piece_names(#[trigger] segs[i], k) {
            let i = choose|i: int| 0 <= i < segs.len() && piece_names(#[trigger] segs[i], k);
            assert(i != n);
            assert(segs[i] == init[i]);
        }
    }
    assert forall|k: Seq<char>| #[trigger] m.contains_key(k) implies exists|i: int|
        0 <= i < segs.len() && piece_names(#[trigger] segs[i], k) && m[k] == piece_value(segs[i])
            && forall|j: int| i < j < segs.len() ==> !piece_names(#[trigger] segs[j], k) by {
        let i = choose|i: int|
            0 <= i < init.len() && piece_names(#[trigger] init[i], k) && m[k] == piece_value(init[i])
                && forall|j: int| i < j < init.len() ==> !piece_names(#[trigger] init[j], k);
        assert(segs[i] == init[i]);
        assert forall|j: int| i < j < segs.len() implies !piece_names(#[trigger] segs[j], k) by {
            if j < n {
                assert(segs[j] == init[j]);
            }
        }
    }
}

/// A piece naming a key sets that key to its value.
proof fn lemma_names_push_pair(init: Seq<Seq<char>>, seg: Seq<char>, m: Map<Seq<char>, Seq<char>>)
    requires
        seg.len() > 0,
        has_char(seg, '='),
        names_last_wins(init, m),
    ensures
        names_last_wins(
            init.push(seg),
            m.insert(seg.take(first_char(seg, '=')), piece_value(seg)),
        ),
{
    let segs = init.push(seg);
    let n = init.len() as int;
    let k0 = seg.take(first_char(seg, '='));
    let m2 = m.insert(k0, piece_value(seg));
    assert(segs[n] == seg);
    assert(piece_names(segs[n], k0));
    assert forall|k: Seq<char>| #[trigger] m2.contains_key(k) <==> exists|i: int|
        0 <= i < segs.len() && piece_names(#[trigger] segs[i], k) by {
        if k != k0 {
            if m.contains_key(k) {
                let i = choose|i: int| 0 <= i < init.len() && piece_names(#[trigger] init[i], k);
                assert(segs[i] == init[i]);
            }
            if exists|i: int| 0 <= i < segs.len() && piece_names(#[trigger] segs[i], k) {
                let i = choose|i: int| 0 <= i < segs.len() && piece_names(#[trigger] segs[i], k);
                assert(i != n);
                assert(segs[i] == init[i]);
            }
        }
    }
    assert forall|k: Seq<char>| #[trigger] m2.contains_key(k) implies exists|i: int|
        0 <= i < segs.len() && piece_names(#[trigger] segs[i], k) && m2[k] == piece_value(segs[i])
            && forall|j: int| i < j < segs.len() ==> !piece_names(#[trigger] segs[j], k) by {
        if k == k0 {
            assert(piece_names(segs[n], k) && m2[k] == piece_value(segs[n]));
        } else {
            let i = choose|i: int|
                0 <= i < init.len() && piece_names(#[trigger] init[i], k) && m[k] == piece_value(
                    init[i],
                ) && forall|j: int| i < j < init.len() ==> !piece_names(#[trigger] init[j], k);
            assert(segs[i] == init[i]);
            assert forall|j: int| i < j < segs.len() implies !piece_names(#[trigger] segs[j], k) by {
                if j < n {
                    assert(segs[j] == init[j]);
                }
            }
        }
    }
}

/// The parameters of pieces are refused exactly when some piece is
/// non-empty without '='; otherwise each key takes the value of the last
/// piece naming it.
proof fn lemma_param_entries_iff(segs: Seq<Seq<char>>)
    ensures
        param_entries(segs) is Err <==> exists|i: int|
            0 <= i < segs.len() && !piece_well_formed(#[trigger] segs[i]),
        param_entries(segs) matches Ok(m) ==> names_last_wins(segs, m),
    decreases segs.len(),
{
    if segs.len() == 0 {
        assert(names_last_wins(segs, Map::<Seq<char>, Seq<char>>::empty()));
    } else {
        let init = segs.drop_last();
        let n = segs.len() - 1;
        let seg = segs.last();
        assert(segs[n] == seg);
        assert(segs =~= init.push(seg));
        lemma_param_entries_iff(init);
        if param_entries(init) is Err {
            let i0 = choose|i: int| 0 <= i < init.len() && !piece_well_formed(#[trigger] init[i]);
            assert(segs[i0] == init[i0]);
        } else {
            let m = param_entries(init)->Ok_0;
            assert forall|i: int| 0 <= i < n implies piece_well_formed(#[trigger] segs[i]) by {
                assert(segs[i] == init[i]);
            }
            if seg.len() == 0 {
                lemma_names_push_empty(init, seg, m);
            } else if has_char(seg, '=') {
                lemma_names_push_pair(init, seg, m);
            }
        }
    }
}

/// The ';'-separated pieces after the first "://" of a connection string.
pub open spec fn connection_pieces(s: Seq<char>) -> Seq<Seq<char>> {
    split_segments(s.skip(first_occurrence(s, "://"@) + 3), ';')
}

/// Parsing a connection string fails exactly when it has no "://" or some
/// non-empty ';'-separated piece after its first "://" holds no '='.
/// Otherwise it gives the text before the first "://" and, for each key
/// that a non-empty piece names before its first '=', the text after that
/// '=' in the last piece naming the key.
pub proof fn lemma_parse_connection_iff(s: Seq<char>)
    ensures
        parse_connection_spec(s) is Err <==> (!(exists|p: int| occurs_at(s, "://"@, p))
            || exists|i: int|
            0 <= i < connection_pieces(s).len() && !piece_well_formed(#[trigger] connection_pieces(s)[i])),
        parse_connection_spec(s) matches Ok((proto, m)) ==> proto == s.take(
            first_occurrence(s, "://"@),
        ) && names_last_wins(connection_pieces(s), m),
{
    lemma_param_entries_iff(connection_pieces(s));
}


} // verus!
