//! The redemption protocol: look a code up, consume it, open the session.

use crate::document::{serve_spec, CacheMode, CacheView};
use crate::session::{doc_for, logged_out, Session};
use crate::store::{
    consume_spec, contains_code, index_of, insert_spec, lemma_index_of_unique, lookup_spec, rows_wf,
    InviteStore, RowView,
};
use vstd::prelude::*;

verus! {

/// Why a redemption failed.
#[derive(PartialEq, Eq, Structural, Clone, Copy, Debug)]
pub enum RedeemError {
    /// No such code.
    InvalidCode,
    /// The code was redeemed before.
    AlreadyUsed,
    /// Recording the consumption failed.
    StorageFailure,
}

/// The outcome of redeeming `code` against `rows`, where `write_ok` tells whether the
/// durable record of the consumption succeeded.
pub open spec fn redeem_outcome(rows: Seq<RowView>, code: Seq<char>, write_ok: bool) -> Result<
    (),
    RedeemError,
> {
    match lookup_spec(rows, code) {
        None => Err(RedeemError::InvalidCode),
        Some(true) => Err(RedeemError::AlreadyUsed),
        Some(false) => if write_ok {
            Ok(())
        } else {
            Err(RedeemError::StorageFailure)
        },
    }
}

/// The table after a redemption attempt: only a successful one consumes the code.
pub open spec fn redeem_rows(
    rows: Seq<RowView>,
    code: Seq<char>,
    now: i64,
    ip: Seq<char>,
    write_ok: bool,
) -> Seq<RowView> {
    if redeem_outcome(rows, code, write_ok) is Ok {
        consume_spec(rows, code, now, ip)
    } else {
        rows
    }
}

/// Redeems `code` for the visitor at `ip` at time `now`.
///
/// `write_ok` reports whether the caller's durable record of this consumption succeeded;
/// it is consulted only when the code is present and unused, and when it is false the
/// code stays unused and no session is opened. The caller holds the store exclusively
/// for the whole call, which makes the lookup and the consumption one atomic step.
pub fn redeem(store: &mut InviteStore, code: &String, now: i64, ip: &String, write_ok: bool) -> (r:
    Result<Session, RedeemError>)
    requires
        old(store).wf(),
    ensures
        final(store).wf(),
        final(store)@ == redeem_rows(old(store)@, code@, now, ip@, write_ok),
        match r {
            Ok(s) => redeem_outcome(old(store)@, code@, write_ok) is Ok && s.authenticated
                && s.redeemed_code is Some && s.redeemed_code->0@ == code@,
            Err(e) => redeem_outcome(old(store)@, code@, write_ok) == Err::<(), RedeemError>(e),
        },
{
    match store.lookup(code) {
        None => Err(RedeemError::InvalidCode),
        Some(true) => Err(RedeemError::AlreadyUsed),
        Some(false) => {
            if !write_ok {
                return Err(RedeemError::StorageFailure);
            }
            let consumed = store.consume(code, now, ip);
            if consumed {
                Ok(Session { authenticated: true, redeemed_code: Some(code.clone()) })
            } else {
                Err(RedeemError::AlreadyUsed)
            }
        },
    }
}

impl RedeemError {
    /// The HTTP status that reports this failure.
    pub fn status_code(&self) -> (r: u16)
        ensures
            r == match *self {
                RedeemError::InvalidCode => 404u16,
                RedeemError::AlreadyUsed => 400u16,
                RedeemError::StorageFailure => 500u16,
            },
    {
        match self {
            RedeemError::InvalidCode => 404,
            RedeemError::AlreadyUsed => 400,
            RedeemError::StorageFailure => 500,
        }
    }

    /// The message shown to the visitor; it carries no internal detail.
    pub fn message(&self) -> (r: String)
        ensures
            r@ == match *self {
                RedeemError::InvalidCode => "无效的邀请码"@,
                RedeemError::AlreadyUsed => "邀请码已被使用"@,
                RedeemError::StorageFailure => "服务器错误"@,
            },
    {
        match self {
            RedeemError::InvalidCode => "无效的邀请码".to_owned(),
            RedeemError::AlreadyUsed => "邀请码已被使用".to_owned(),
            RedeemError::StorageFailure => "服务器错误".to_owned(),
        }
    }
}

/// The reply to a redemption request.
pub struct AuthReply {
    pub status: u16,
    pub success: bool,
    pub message: String,
}

/// Maps a redemption result to its reply: 200 on success, else the error's status and message.
pub fn auth_reply(result: &Result<Session, RedeemError>) -> (r: AuthReply)
    ensures
        r.success == result is Ok,
        match result {
            Ok(_) => r.status == 200 && r.message@ == "验证成功"@,
            Err(e) => r.status == match *e {
                RedeemError::InvalidCode => 404u16,
                RedeemError::AlreadyUsed => 400u16,
                RedeemError::StorageFailure => 500u16,
            } && r.message@ == match *e {
                RedeemError::InvalidCode => "无效的邀请码"@,
                RedeemError::AlreadyUsed => "邀请码已被使用"@,
                RedeemError::StorageFailure => "服务器错误"@,
            },
        },
{
    match result {
        Ok(_) => AuthReply { status: 200, success: true, message: "验证成功".to_owned() },
        Err(e) => AuthReply { status: e.status_code(), success: false, message: e.message() },
    }
}

/// Ends the visitor's session, whether or not there was one, and gives the reply: 200,
/// success, and its message. The invite table is not involved.
pub fn logout(session: &mut Session) -> (r: AuthReply)
    ensures
        logged_out(*final(session)),
        r.status == 200,
        r.success,
        r.message@ == "已退出"@,
{
    session.logout();
    AuthReply { status: 200, success: true, message: "已退出".to_owned() }
}

/// A code that is present and unused is redeemed by the first attempt whose write
/// succeeds; every attempt after it, with any time, address or write outcome, gets
/// `AlreadyUsed` and leaves the table as it was, so the code is never consumed twice.
pub proof fn lemma_redeemed_exactly_once(
    rows: Seq<RowView>,
    code: Seq<char>,
    now: i64,
    ip: Seq<char>,
    later_now: i64,
    later_ip: Seq<char>,
    later_write_ok: bool,
)
    requires
        rows_wf(rows),
        lookup_spec(rows, code) == Some(false),
    ensures
        redeem_outcome(rows, code, true) is Ok,
        lookup_spec(redeem_rows(rows, code, now, ip, true), code) == Some(true),
        redeem_outcome(redeem_rows(rows, code, now, ip, true), code, later_write_ok) == Err::<
            (),
            RedeemError,
        >(RedeemError::AlreadyUsed),
        redeem_rows(redeem_rows(rows, code, now, ip, true), code, later_now, later_ip, later_write_ok)
            == redeem_rows(rows, code, now, ip, true),
{
    let k = index_of(rows, code);
    let after = consume_spec(rows, code, now, ip);
    assert(rows_wf(after));
    lemma_index_of_unique(after, code, k);
}

/// A used code stays used, with the same time and address, whatever insertion or
/// consumption follows.
pub proof fn lemma_used_is_final(
    rows: Seq<RowView>,
    code: Seq<char>,
    other: Seq<char>,
    now: i64,
    ip: Seq<char>,
)
    requires
        rows_wf(rows),
        lookup_spec(rows, code) == Some(true),
    ensures
        lookup_spec(insert_spec(rows, other, now), code) == Some(true),
        insert_spec(rows, other, now)[index_of(insert_spec(rows, other, now), code)]
            == rows[index_of(rows, code)],
        lookup_spec(consume_spec(rows, other, now, ip), code) == Some(true),
        consume_spec(rows, other, now, ip)[index_of(consume_spec(rows, other, now, ip), code)]
            == rows[index_of(rows, code)],
{
    let k = index_of(rows, code);
    let ins = insert_spec(rows, other, now);
    if !contains_code(rows, other) {
        assert(rows_wf(ins));
        lemma_index_of_unique(ins, code, k);
    }
    let con = consume_spec(rows, other, now, ip);
    if lookup_spec(rows, other) == Some(false) {
        assert(rows_wf(con));
        lemma_index_of_unique(con, code, k);
    }
}

/// Redeeming a code that is not in the table fails with `InvalidCode` and changes nothing.
pub proof fn lemma_unknown_code_rejected(
    rows: Seq<RowView>,
    code: Seq<char>,
    now: i64,
    ip: Seq<char>,
    write_ok: bool,
)
    requires
        !contains_code(rows, code),
    ensures
        redeem_outcome(rows, code, write_ok) == Err::<(), RedeemError>(RedeemError::InvalidCode),
        redeem_rows(rows, code, now, ip, write_ok) == rows,
{
}

/// After a successful redemption and a logout, a page request is answered with the public
/// document (a 200, when that document is frozen or its source can be read), and the code
/// stays used: logging out never gives a code back.
pub proof fn lemma_logout_keeps_code_spent(
    rows: Seq<RowView>,
    code: Seq<char>,
    now: i64,
    ip: Seq<char>,
    session: Session,
    cache: CacheView,
    live: Option<Seq<char>>,
)
    requires
        rows_wf(rows),
        redeem_outcome(rows, code, true) is Ok,
        logged_out(session),
        cache.mode == CacheMode::Frozen || live is Some,
    ensures
        serve_spec(cache, doc_for(session.authenticated), live).status == 200,
        serve_spec(cache, doc_for(session.authenticated), live).body == match cache.mode {
            CacheMode::Frozen => cache.public,
            CacheMode::ReadThrough => live->0,
        },
        lookup_spec(redeem_rows(rows, code, now, ip, true), code) == Some(true),
{
    lemma_redeemed_exactly_once(rows, code, now, ip, now, ip, true);
}

/// One redemption attempt: the code, the time, the visitor's address and the outcome of
/// the durable write.
pub struct Attempt {
    pub code: Seq<char>,
    pub now: i64,
    pub ip: Seq<char>,
    pub write_ok: bool,
}

/// The table after the attempts of `h`, in order.
pub open spec fn run_attempts(rows: Seq<RowView>, h: Seq<Attempt>) -> Seq<RowView>
    decreases h.len(),
{
    if h.len() == 0 {
        rows
    } else {
        let a = h.last();
        redeem_rows(run_attempts(rows, h.drop_last()), a.code, a.now, a.ip, a.write_ok)
    }
}

/// How many attempts of `h` on `code` succeed.
pub open spec fn wins(rows: Seq<RowView>, h: Seq<Attempt>, code: Seq<char>) -> nat
    decreases h.len(),
{
    if h.len() == 0 {
        0
    } else {
        let a = h.last();
        wins(rows, h.drop_last(), code) + if a.code == code && redeem_outcome(
            run_attempts(rows, h.drop_last()),
            code,
            a.write_ok,
        ) is Ok {
            1nat
        } else {
            0nat
        }
    }
}

proof fn lemma_redeem_step(rows: Seq<RowView>, c: Seq<char>, k: int, a: Attempt)
    requires
        rows_wf(rows),
        0 <= k < rows.len(),
        rows[k].code == c,
    ensures
        rows_wf(redeem_rows(rows, a.code, a.now, a.ip, a.write_ok)),
        redeem_rows(rows, a.code, a.now, a.ip, a.write_ok).len() == rows.len(),
        redeem_rows(rows, a.code, a.now, a.ip, a.write_ok)[k].code == c,
        a.code != c ==> redeem_rows(rows, a.code, a.now, a.ip, a.write_ok)[k] == rows[k],
        a.code == c && rows[k].used ==> redeem_outcome(rows, c, a.write_ok) == Err::<
            (),
            RedeemError,
        >(RedeemError::AlreadyUsed),
        a.code == c && !rows[k].used && redeem_outcome(rows, c, a.write_ok) is Ok ==> ({
            let n = redeem_rows(rows, a.code, a.now, a.ip, a.write_ok);
            n[k].used && n[k].used_at == Some(a.now) && n[k].visitor_ip == Some(a.ip)
        }),
        !(redeem_outcome(rows, a.code, a.write_ok) is Ok) ==> redeem_rows(
            rows,
            a.code,
            a.now,
            a.ip,
            a.write_ok,
        ) == rows,
{
    lemma_index_of_unique(rows, c, k);
    let next = redeem_rows(rows, a.code, a.now, a.ip, a.write_ok);
    if redeem_outcome(rows, a.code, a.write_ok) is Ok {
        let m = index_of(rows, a.code);
        assert(rows[m].code == a.code);
        assert(rows_wf(next));
    }
}

/// Over any history of redemption attempts, taken one at a time as exclusive access to the
/// table makes them, a code that is present goes from unused to used at most once: if it
/// was used already, no attempt on it succeeds and its row never changes; if it was unused,
/// it ends used exactly when one attempt succeeded, with that attempt's time and address,
/// and otherwise its row is untouched.
pub proof fn lemma_any_history(rows: Seq<RowView>, h: Seq<Attempt>, c: Seq<char>, k: int)
    requires
        rows_wf(rows),
        0 <= k < rows.len(),
        rows[k].code == c,
    ensures
        rows_wf(run_attempts(rows, h)),
        run_attempts(rows, h).len() == rows.len(),
        run_attempts(rows, h)[k].code == c,
        wins(rows, h, c) <= 1,
        rows[k].used ==> wins(rows, h, c) == 0 && run_attempts(rows, h)[k] == rows[k],
        !rows[k].used ==> ((wins(rows, h, c) == 1) == run_attempts(rows, h)[k].used),
        !rows[k].used && wins(rows, h, c) == 0 ==> run_attempts(rows, h)[k] == rows[k],
        !rows[k].used && wins(rows, h, c) == 1 ==> exists|i: int|
            0 <= i < h.len() && (#[trigger] h[i]).code == c && redeem_outcome(
                run_attempts(rows, h.take(i)),
                c,
                h[i].write_ok,
            ) is Ok && run_attempts(rows, h)[k].used_at == Some(h[i].now) && run_attempts(
                rows,
                h,
            )[k].visitor_ip == Some(h[i].ip),
    decreases h.len(),
{
    if h.len() > 0 {
        let p = h.drop_last();
        let a = h.last();
        lemma_any_history(rows, p, c, k);
        let mid = run_attempts(rows, p);
        lemma_redeem_step(mid, c, k, a);
        lemma_index_of_unique(mid, c, k);
        if !rows[k].used && wins(rows, h, c) == 1 {
            if wins(rows, p, c) == 1 {
                let i = choose|i: int|
                    0 <= i < p.len() && (#[trigger] p[i]).code == c && redeem_outcome(
                        run_attempts(rows, p.take(i)),
                        c,
                        p[i].write_ok,
                    ) is Ok && mid[k].used_at == Some(p[i].now) && mid[k].visitor_ip == Some(
                        p[i].ip,
                    );
                assert(p.take(i) =~= h.take(i));
                assert(h[i] == p[i]);
            } else {
                let i = h.len() - 1;
                assert(h.take(i) =~= p);
                assert(h[i] == a);
            }
        }
    }
}

} // verus!
