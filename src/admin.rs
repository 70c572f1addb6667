//! Administrative operations: minting codes in bulk and usage counts.

use crate::store::{
    contains_code, count_used, fresh_row, lemma_count_used_bounded, lemma_index_of_unique,
    lookup_spec, InviteStore, RowView,
};
use vstd::prelude::*;

verus! {

/// How many codes one generation request tries to mint.
pub const CODES_PER_REQUEST: usize = 5;

/// Length, in characters, of a minted code.
pub const TOKEN_LEN: usize = 32;

/// The URL-safe characters that minted codes are drawn from.
pub open spec fn is_token_char(c: char) -> bool {
    c == '_' || c == '-' || ('0' <= c && c <= '9') || ('a' <= c && c <= 'z') || ('A' <= c
        && c <= 'Z')
}

pub open spec fn is_token(s: Seq<char>) -> bool {
    s.len() == TOKEN_LEN && forall|i: int| 0 <= i < s.len() ==> is_token_char(#[trigger] s[i])
}

/// Relies on nanoid::format with nanoid::rngs::default and nanoid::alphabet::SAFE: a string
/// of exactly `size` characters, each taken from that 64-symbol URL-safe alphabet, chosen
/// by the operating system's randomness. `format` never returns for size 0 and computes
/// `8 * size`, hence the bounds.
#[verifier::external_body]
fn random_token(size: usize) -> (r: String)
    requires
        0 < size <= 4096,
    ensures
        r@.len() == size,
        forall|i: int| 0 <= i < r@.len() ==> is_token_char(#[trigger] r@[i]),
{
    nanoid::format(nanoid::rngs::default, &nanoid::alphabet::SAFE, size)
}

/// Relies on chrono::Utc::now and DateTime::timestamp: the current time in Unix seconds.
/// Nothing is known of the value.
#[verifier::external_body]
fn current_unix_time() -> (r: i64) {
    chrono::Utc::now().timestamp()
}

pub open spec fn code_views(v: Seq<String>) -> Seq<Seq<char>> {
    v.map_values(|s: String| s@)
}

pub open spec fn all_true(n: nat) -> Seq<bool> {
    Seq::new(n, |i: int| true)
}

/// The tokens that `insert_fresh` adds, in order: those whose durable write succeeded and
/// that are neither in `rows` nor among the tokens added before them.
pub open spec fn kept_tokens(rows: Seq<RowView>, ts: Seq<Seq<char>>, ws: Seq<bool>) -> Seq<
    Seq<char>,
>
    decreases ts.len(),
{
    if ts.len() == 0 || ws.len() == 0 {
        Seq::empty()
    } else {
        let p = kept_tokens(rows, ts.drop_last(), ws.drop_last());
        let t = ts.last();
        if ws.last() && !contains_code(rows, t) && !p.contains(t) {
            p.push(t)
        } else {
            p
        }
    }
}

/// One fresh unused row, stamped `now`, for each of `ks`.
pub open spec fn fresh_rows(ks: Seq<Seq<char>>, now: i64) -> Seq<RowView> {
    ks.map_values(|k: Seq<char>| fresh_row(k, now))
}

/// `after` is `before` with one fresh unused row appended for each of `codes`, in order.
pub open spec fn appended_fresh(before: Seq<RowView>, after: Seq<RowView>, codes: Seq<String>) -> bool {
    &&& after.len() == before.len() + codes.len()
    &&& after.subrange(0, before.len() as int) == before
    &&& forall|j: int|
        0 <= j < codes.len() ==> #[trigger] after[before.len() + j] == fresh_row(
            codes[j]@,
            after[before.len() + j].created_at,
        )
}

proof fn lemma_contains_appended(rows: Seq<RowView>, ks: Seq<Seq<char>>, now: i64, t: Seq<char>)
    ensures
        contains_code(rows + fresh_rows(ks, now), t) == (contains_code(rows, t) || ks.contains(t)),
{
    let all = rows + fresh_rows(ks, now);
    if contains_code(all, t) {
        let i = choose|i: int| 0 <= i < all.len() && all[i].code == t;
        if i < rows.len() {
            assert(rows[i].code == t);
        } else {
            assert(ks[i - rows.len()] == t);
        }
    }
    if contains_code(rows, t) {
        let i = choose|i: int| 0 <= i < rows.len() && rows[i].code == t;
        assert(all[i] == rows[i]);
    }
    if ks.contains(t) {
        let j = choose|j: int| 0 <= j < ks.len() && ks[j] == t;
        assert(all[rows.len() + j].code == t);
    }
}

/// What every result of `kept_tokens` satisfies.
pub proof fn lemma_kept_tokens(rows: Seq<RowView>, ts: Seq<Seq<char>>, ws: Seq<bool>)
    requires
        ts.len() == ws.len(),
    ensures
        kept_tokens(rows, ts, ws).len() <= ts.len(),
        forall|x: Seq<char>| #[trigger]
            kept_tokens(rows, ts, ws).contains(x) ==> ts.contains(x) && !contains_code(rows, x),
        kept_tokens(rows, ts, ws).no_duplicates(),
        ts.len() > 0 && ws[0] && !contains_code(rows, ts[0]) ==> kept_tokens(rows, ts, ws).len()
            > 0,
    decreases ts.len(),
{
    if ts.len() > 0 {
        let pt = ts.drop_last();
        let pw = ws.drop_last();
        lemma_kept_tokens(rows, pt, pw);
        let p = kept_tokens(rows, pt, pw);
        let k = kept_tokens(rows, ts, ws);
        assert forall|x: Seq<char>| #[trigger] k.contains(x) implies ts.contains(x)
            && !contains_code(rows, x) by {
            if p.contains(x) {
                assert(pt.contains(x));
                let j = choose|j: int| 0 <= j < pt.len() && pt[j] == x;
                assert(ts[j] == x);
            } else {
                assert(x == ts.last());
                assert(ts[ts.len() - 1] == x);
            }
        }
        if k != p {
            assert forall|a: int, b: int| 0 <= a < k.len() && 0 <= b < k.len() && a != b implies k[a]
                != k[b] by {
                if b == k.len() - 1 {
                    assert(p[a] == k[a]);
                } else if a == k.len() - 1 {
                    assert(p[b] == k[b]);
                }
            }
        }
        if ts.len() > 1 {
            assert(pt[0] == ts[0]);
            assert(pw[0] == ws[0]);
        }
    }
}

/// Adds, in order, each of `tokens` whose durable write succeeded (`written`) and that is
/// neither in the table nor among the tokens added before it, as an unused row stamped
/// `now`. Returns the tokens added.
pub fn insert_fresh(store: &mut InviteStore, tokens: &Vec<String>, written: &Vec<bool>, now: i64) -> (r:
    Vec<String>)
    requires
        old(store).wf(),
        tokens@.len() == written@.len(),
    ensures
        final(store).wf(),
        code_views(r@) == kept_tokens(old(store)@, code_views(tokens@), written@),
        final(store)@ == old(store)@ + fresh_rows(code_views(r@), now),
{
    let ghost start = store@;
    let ghost ts = code_views(tokens@);
    let mut codes: Vec<String> = Vec::new();
    let mut i: usize = 0;
    assert(start + fresh_rows(code_views(codes@), now) =~= start);
    assert(code_views(codes@) =~= kept_tokens(start, ts.take(0), written@.take(0)));
    while i < tokens.len()
        invariant
            store.wf(),
            i <= tokens@.len(),
            tokens@.len() == written@.len(),
            ts == code_views(tokens@),
            code_views(codes@) == kept_tokens(start, ts.take(i as int), written@.take(i as int)),
            store@ == start + fresh_rows(code_views(codes@), now),
        decreases tokens@.len() - i,
    {
        let ghost prev = code_views(codes@);
        proof {
            assert(ts.take(i + 1).drop_last() =~= ts.take(i as int));
            assert(written@.take(i + 1).drop_last() =~= written@.take(i as int));
            assert(ts.take(i + 1).last() == tokens@[i as int]@);
            lemma_contains_appended(start, prev, now, tokens@[i as int]@);
        }
        if written[i] {
            if store.insert_unique(&tokens[i], now) {
                let t = tokens[i].clone();
                codes.push(t);
                proof {
                    assert(code_views(codes@) =~= prev.push(tokens@[i as int]@));
                    assert(store@ =~= start + fresh_rows(code_views(codes@), now));
                }
            }
        }
        i = i + 1;
    }
    assert(ts.take(i as int) =~= ts);
    assert(written@.take(i as int) =~= written@);
    codes
}

/// Draws `n` random codes of `TOKEN_LEN` characters.
pub fn draw_tokens(n: usize) -> (r: Vec<String>)
    ensures
        r@.len() == n,
        forall|j: int| 0 <= j < r@.len() ==> is_token(#[trigger] r@[j]@),
{
    let mut tokens: Vec<String> = Vec::new();
    while tokens.len() < n
        invariant
            tokens@.len() <= n,
            forall|j: int| 0 <= j < tokens@.len() ==> is_token(#[trigger] tokens@[j]@),
        decreases n - tokens@.len(),
    {
        tokens.push(random_token(TOKEN_LEN));
    }
    tokens
}

/// Draws `n` random codes and adds those not already present, skipping a duplicate draw
/// without retry, so fewer than `n` codes may come back, even none; when no code in the
/// table has the shape of a drawn one, at least one comes back. Returns the codes added,
/// each new to the table, distinct, and now present and unused.
pub fn generate_codes(store: &mut InviteStore, n: usize) -> (r: Vec<String>)
    requires
        old(store).wf(),
    ensures
        final(store).wf(),
        r@.len() <= n,
        exists|d: Seq<Seq<char>>|
            d.len() == n && (forall|j: int| 0 <= j < n ==> is_token(#[trigger] d[j]))
                && code_views(r@) == #[trigger] kept_tokens(old(store)@, d, all_true(n as nat)),
        appended_fresh(old(store)@, final(store)@, r@),
        n > 0 && (forall|i: int| 0 <= i < old(store)@.len() ==> !is_token(#[trigger] old(store)@[i].code))
            ==> r@.len() > 0,
        forall|j: int| 0 <= j < r@.len() ==> !contains_code(old(store)@, #[trigger] r@[j]@),
        forall|j: int|
            0 <= j < r@.len() ==> lookup_spec(final(store)@, #[trigger] r@[j]@) == Some(false),
        forall|j: int| 0 <= j < r@.len() ==> is_token(#[trigger] r@[j]@),
        forall|i: int, j: int| 0 <= i < j < r@.len() ==> r@[i]@ != r@[j]@,
{
    let ghost start = store@;
    let tokens = draw_tokens(n);
    let mut written: Vec<bool> = Vec::new();
    while written.len() < n
        invariant
            written@.len() <= n,
            forall|j: int| 0 <= j < written@.len() ==> #[trigger] written@[j],
        decreases n - written@.len(),
    {
        written.push(true);
    }
    assert(written@ =~= all_true(n as nat));
    let now = current_unix_time();
    let codes = insert_fresh(store, &tokens, &written, now);
    proof {
        let d = code_views(tokens@);
        let k = code_views(codes@);
        lemma_kept_tokens(start, d, written@);
        assert forall|j: int| 0 <= j < n implies is_token(#[trigger] d[j]) by {
            assert(d[j] == tokens@[j]@);
        }
        assert(store@.subrange(0, start.len() as int) =~= start);
        assert forall|j: int| 0 <= j < codes@.len() implies #[trigger] store@[start.len() + j]
            == fresh_row(codes@[j]@, store@[start.len() + j].created_at) by {
            assert(k[j] == codes@[j]@);
        }
        assert forall|j: int| 0 <= j < codes@.len() implies !contains_code(
            start,
            #[trigger] codes@[j]@,
        ) && is_token(codes@[j]@) by {
            assert(k[j] == codes@[j]@);
            assert(k.contains(k[j]));
            let w = choose|w: int| 0 <= w < d.len() && d[w] == k[j];
            assert(d[w] == tokens@[w]@);
        }
        assert forall|j: int| 0 <= j < codes@.len() implies lookup_spec(
            store@,
            #[trigger] codes@[j]@,
        ) == Some(false) by {
            assert(store@[start.len() + j].code == codes@[j]@);
            lemma_index_of_unique(store@, codes@[j]@, start.len() + j);
        }
        assert forall|a: int, b: int| 0 <= a < b < codes@.len() implies codes@[a]@
            != codes@[b]@ by {
            assert(k[a] == codes@[a]@);
            assert(k[b] == codes@[b]@);
        }
        if n > 0 && (forall|i: int| 0 <= i < start.len() ==> !is_token(#[trigger] start[i].code)) {
            assert(is_token(d[0]));
            if contains_code(start, d[0]) {
                let w = choose|w: int| 0 <= w < start.len() && start[w].code == d[0];
                assert(!is_token(start[w].code));
            }
        }
    }
    codes
}

/// Usage counts of the table.
pub struct Stats {
    pub total: usize,
    pub used: usize,
    pub available: usize,
}

/// Counts all rows and used rows; `available` is what is left.
pub fn stats(store: &InviteStore) -> (r: Stats)
    ensures
        r.total == store@.len(),
        r.used == count_used(store@),
        r.total == r.used + r.available,
{
    let total = store.len();
    let used = store.count_used();
    proof {
        lemma_count_used_bounded(store@);
    }
    Stats { total, used, available: total - used }
}

} // verus!
