use crate::response::{spec_is_success, Error, Response};
use crate::stream::{
    advance_result, sync_step_result, ModeView, ShapeStream,
};
use vstd::prelude::*;

verus! {

/// The continuation state after a whole sequence of responses, each applied
/// with [`advance_result`]; a response whose transition fails leaves the
/// state as it was, exactly as the executable `advance` does.
pub open spec fn advance_fold(m: ModeView, rs: Seq<Response>) -> ModeView
    decreases rs.len(),
{
    if rs.len() == 0 {
        m
    } else {
        let m1 = match advance_result(m, rs[0]) {
            Ok(m2) => m2,
            Err(_) => m,
        };
        advance_fold(m1, rs.drop_first())
    }
}

/// The last position token observed over a sequence of responses, starting
/// from `init`: a response that omits the header leaves the value as it was.
pub open spec fn latest_offset(init: Option<Seq<char>>, rs: Seq<Response>) -> Option<Seq<char>>
    decreases rs.len(),
{
    if rs.len() == 0 {
        init
    } else {
        latest_offset(
            if rs[0].offset_spec() is Some {
                rs[0].offset_spec()
            } else {
                init
            },
            rs.drop_first(),
        )
    }
}

/// The last subscription handle observed over a sequence of responses,
/// starting from `init`.
pub open spec fn latest_handle(init: Option<Seq<char>>, rs: Seq<Response>) -> Option<Seq<char>>
    decreases rs.len(),
{
    if rs.len() == 0 {
        init
    } else {
        latest_handle(
            if rs[0].handle_spec() is Some {
                rs[0].handle_spec()
            } else {
                init
            },
            rs.drop_first(),
        )
    }
}

/// The bodies of a sequence of responses, concatenated in response order,
/// each followed by the newline the catch-up loop appends.
pub open spec fn bodies_concat(rs: Seq<Response>) -> Seq<char>
    decreases rs.len(),
{
    if rs.len() == 0 {
        Seq::<char>::empty()
    } else {
        rs[0].body@ + "\n"@ + bodies_concat(rs.drop_first())
    }
}

/// State and accumulator after a whole run of catch-up steps, or the error
/// that ended it.
pub open spec fn sync_fold(m: ModeView, acc: Seq<char>, rs: Seq<Response>) -> Result<
    (ModeView, Seq<char>),
    Error,
>
    decreases rs.len(),
{
    if rs.len() == 0 {
        Ok((m, acc))
    } else {
        match sync_step_result(m, rs[0], acc) {
            Ok((m2, a2, _done)) => sync_fold(m2, a2, rs.drop_first()),
            Err(e) => Err(e),
        }
    }
}

/// For every sequence of responses in which the up-to-date signal is absent,
/// the phase remains catch-up, and position and subscription end up as the
/// last values the responses carried — a response that omitted a header left
/// the previous value in place.
pub proof fn lemma_without_up_to_date_phase_persists(m: ModeView, rs: Seq<Response>)
    requires
        m is InitialSync,
        forall|i: int| 0 <= i < rs.len() ==> !(#[trigger] rs[i]).up_to_date_spec(),
    ensures
        advance_fold(m, rs) == (ModeView::InitialSync {
            offset: latest_offset(m->InitialSync_offset, rs),
            handle: latest_handle(m->InitialSync_handle, rs),
        }),
    decreases rs.len(),
{
    if rs.len() == 0 {
        assert(advance_fold(m, rs) == m);
    } else {
        let m1 = ModeView::InitialSync {
            offset: if rs[0].offset_spec() is Some {
                rs[0].offset_spec()
            } else {
                m->InitialSync_offset
            },
            handle: if rs[0].handle_spec() is Some {
                rs[0].handle_spec()
            } else {
                m->InitialSync_handle
            },
        };
        assert(advance_result(m, rs[0]) == Ok::<ModeView, Error>(m1));
        assert(forall|i: int|
            0 <= i < rs.drop_first().len() ==> !(#[trigger] rs.drop_first()[i]).up_to_date_spec());
        lemma_without_up_to_date_phase_persists(m1, rs.drop_first());
    }
}

/// Once in the tailing phase, the stream stays there for every sequence of
/// responses, and its tokens end at the last values the responses carried: a
/// response that omitted the position or subscription header left the
/// previous value in place.  Since the request URL carries the tailing
/// state's subscription, the handle echoed on every subsequent request is
/// exactly the last one observed.
pub proof fn lemma_tailing_echoes_latest_tokens(m: ModeView, rs: Seq<Response>)
    requires
        m is Live,
    ensures
        advance_fold(m, rs) is Live,
        Some(advance_fold(m, rs)->Live_offset) == latest_offset(Some(m->Live_offset), rs),
        Some(advance_fold(m, rs)->Live_handle) == latest_handle(Some(m->Live_handle), rs),
        forall|s: ShapeStream|
            (#[trigger] s.mode@) == advance_fold(m, rs) ==> s.handle_param() == latest_handle(
                Some(m->Live_handle),
                rs,
            ),
    decreases rs.len(),
{
    if rs.len() == 0 {
    } else {
        let m1 = ModeView::Live {
            offset: if rs[0].offset_spec() is Some {
                rs[0].offset_spec()->0
            } else {
                m->Live_offset
            },
            handle: if rs[0].handle_spec() is Some {
                rs[0].handle_spec()->0
            } else {
                m->Live_handle
            },
            cursor: rs[0].cursor_spec(),
        };
        assert(advance_result(m, rs[0]) == Ok::<ModeView, Error>(m1));
        lemma_tailing_echoes_latest_tokens(m1, rs.drop_first());
    }
}

/// A complete catch-up run concatenates the bodies of every response, in
/// response order, up to and including the one flagged up-to-date — which is
/// also the response whose tokens the resulting tailing state holds.
pub proof fn lemma_catch_up_concatenates(m: ModeView, acc: Seq<char>, rs: Seq<Response>)
    requires
        m is InitialSync,
        rs.len() > 0,
        forall|i: int| 0 <= i < rs.len() ==> spec_is_success((#[trigger] rs[i]).status),
        forall|i: int| 0 <= i < rs.len() - 1 ==> !(#[trigger] rs[i]).up_to_date_spec(),
        rs.last().up_to_date_spec(),
        rs.last().offset_spec() is Some,
        rs.last().handle_spec() is Some,
    ensures
        sync_fold(m, acc, rs) matches Ok((m2, a2)) && a2 == acc + bodies_concat(rs) && m2
            == (ModeView::Live {
            offset: rs.last().offset_spec()->0,
            handle: rs.last().handle_spec()->0,
            cursor: rs.last().cursor_spec(),
        }),
    decreases rs.len(),
{
    let first = rs[0];
    let tail = rs.drop_first();
    if rs.len() == 1 {
        assert(first == rs.last());
        let m2 = ModeView::Live {
            offset: first.offset_spec()->0,
            handle: first.handle_spec()->0,
            cursor: first.cursor_spec(),
        };
        assert(advance_result(m, first) == Ok::<ModeView, Error>(m2));
        let a2 = acc + first.body@ + "\n"@;
        assert(sync_step_result(m, first, acc) == Ok::<(ModeView, Seq<char>, bool), Error>(
            (m2, a2, true),
        ));
        assert(sync_fold(m2, a2, tail) == Ok::<(ModeView, Seq<char>), Error>((m2, a2)));
        assert(sync_fold(m, acc, rs) == Ok::<(ModeView, Seq<char>), Error>((m2, a2)));
        assert(bodies_concat(tail) =~= Seq::<char>::empty());
        assert(a2 =~= acc + bodies_concat(rs));
    } else {
        let m1 = ModeView::InitialSync {
            offset: if first.offset_spec() is Some {
                first.offset_spec()
            } else {
                m->InitialSync_offset
            },
            handle: if first.handle_spec() is Some {
                first.handle_spec()
            } else {
                m->InitialSync_handle
            },
        };
        assert(!first.up_to_date_spec());
        assert(advance_result(m, first) == Ok::<ModeView, Error>(m1));
        let a1 = acc + first.body@ + "\n"@;
        assert(sync_step_result(m, first, acc) == Ok::<(ModeView, Seq<char>, bool), Error>(
            (m1, a1, false),
        ));
        assert(sync_fold(m, acc, rs) == sync_fold(m1, a1, tail));
        assert(tail.last() == rs.last());
        assert(forall|i: int|
            0 <= i < tail.len() ==> spec_is_success((#[trigger] tail[i]).status));
        assert(forall|i: int| 0 <= i < tail.len() - 1 ==> !(#[trigger] tail[i]).up_to_date_spec());
        lemma_catch_up_concatenates(m1, a1, tail);
        assert(a1 + bodies_concat(tail) =~= acc + bodies_concat(rs));
    }
}

} // verus!
