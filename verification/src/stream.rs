use crate::response::{
    is_success, lookup_header, spec_header_value, spec_is_success, Error, Response,
};
use vstd::prelude::*;

verus! {

/// The continuation state of a stream: exactly one of two phases.
///
/// `InitialSync` is the catch-up phase: `offset` absent means "start of
/// history" (serialized as the sentinel `-1`), `handle` is absent until the
/// server assigns a subscription.  `Live` is the steady-state tailing phase:
/// position and subscription are mandatory, `cursor` is an optional
/// server-supplied hint for positioning the next long poll.  The tagged union
/// makes an inconsistent combination (a tailing state without a position, or
/// a cursor read during catch-up) unrepresentable.
#[derive(Debug)]
pub enum Mode {
    InitialSync { offset: Option<String>, handle: Option<String> },
    Live { offset: String, handle: String, cursor: Option<String> },
}

/// The mathematical value of a [`Mode`]: the same shape over `Seq<char>`.
#[allow(inconsistent_fields)]
pub enum ModeView {
    InitialSync { offset: Option<Seq<char>>, handle: Option<Seq<char>> },
    Live { offset: Seq<char>, handle: Seq<char>, cursor: Option<Seq<char>> },
}

impl View for Mode {
    type V = ModeView;

    open spec fn view(&self) -> ModeView {
        match self {
            Mode::InitialSync { offset, handle } => ModeView::InitialSync {
                offset: offset.deep_view(),
                handle: handle.deep_view(),
            },
            Mode::Live { offset, handle, cursor } => ModeView::Live {
                offset: offset@,
                handle: handle@,
                cursor: cursor.deep_view(),
            },
        }
    }
}

/// How one response advances the continuation state.
///
/// With the up-to-date signal set, a catch-up state must find both a position
/// token and a subscription handle in the response and becomes a tailing
/// state (a response missing either is a protocol violation); without the
/// signal, the catch-up state refreshes its tokens from whatever headers are
/// present and keeps its phase.  A tailing state never reverts: it refreshes
/// position and subscription from the headers, keeping the previous value
/// where a header is absent, and takes the cursor as the response carries it.
pub open spec fn advance_mode(
    m: ModeView,
    off: Option<Seq<char>>,
    handle: Option<Seq<char>>,
    cursor: Option<Seq<char>>,
    up_to_date: bool,
) -> Result<ModeView, Error> {
    match m {
        ModeView::InitialSync { offset: old_off, handle: old_handle } => {
            if up_to_date {
                if off is Some && handle is Some {
                    Ok(ModeView::Live { offset: off->0, handle: handle->0, cursor })
                } else {
                    Err(Error::ProtocolViolation)
                }
            } else {
                Ok(ModeView::InitialSync {
                    offset: if off is Some { off } else { old_off },
                    handle: if handle is Some { handle } else { old_handle },
                })
            }
        },
        ModeView::Live { offset: old_off, handle: old_handle, cursor: _ } => {
            Ok(ModeView::Live {
                offset: if off is Some { off->0 } else { old_off },
                handle: if handle is Some { handle->0 } else { old_handle },
                cursor,
            })
        },
    }
}

/// [`advance_mode`] applied to the four protocol signals of a response.
pub open spec fn advance_result(m: ModeView, resp: Response) -> Result<ModeView, Error> {
    advance_mode(
        m,
        resp.offset_spec(),
        resp.handle_spec(),
        resp.cursor_spec(),
        resp.up_to_date_spec(),
    )
}

/// One step of the catch-up loop: what phase, accumulator and done-flag come
/// out of one response, or which error ends the fetch.
pub open spec fn sync_step_result(m: ModeView, resp: Response, acc: Seq<char>) -> Result<
    (ModeView, Seq<char>, bool),
    Error,
> {
    if !spec_is_success(resp.status) {
        Err(Error::UnsuccessfulResponse(resp.status))
    } else {
        match advance_result(m, resp) {
            Ok(m2) => Ok((m2, acc + resp.body@ + "\n"@, resp.up_to_date_spec())),
            Err(e) => Err(e),
        }
    }
}

/// One step of the tailing loop.  A no-content response advances the state
/// but neither touches the accumulator nor completes the unit; any other
/// successful response appends its body, and completes the unit exactly when
/// it carries the up-to-date signal.
pub open spec fn live_step_result(m: ModeView, resp: Response, acc: Seq<char>) -> Result<
    (ModeView, Seq<char>, bool),
    Error,
> {
    if !spec_is_success(resp.status) {
        Err(Error::UnsuccessfulResponse(resp.status))
    } else {
        match advance_result(m, resp) {
            Ok(m2) => if resp.status == 204 {
                Ok((m2, acc, false))
            } else {
                Ok((m2, acc + resp.body@ + "\n"@, resp.up_to_date_spec()))
            },
            Err(e) => Err(e),
        }
    }
}

/// A replication stream for one named resource: the continuation state
/// together with the host and resource name that every request URL names.
#[derive(Debug)]
pub struct ShapeStream {
    pub mode: Mode,
    pub host: String,
    pub table: String,
}

impl ShapeStream {
    /// The position token that the next request carries: the stored token,
    /// or the sentinel `-1` while no position is known.
    pub open spec fn offset_param(self) -> Seq<char> {
        match self.mode@ {
            ModeView::InitialSync { offset, .. } => match offset {
                Some(o) => o,
                None => "-1"@,
            },
            ModeView::Live { offset, .. } => offset,
        }
    }

    /// The subscription handle that the next request carries, if one is
    /// assigned.
    pub open spec fn handle_param(self) -> Option<Seq<char>> {
        match self.mode@ {
            ModeView::InitialSync { handle, .. } => handle,
            ModeView::Live { handle, .. } => Some(handle),
        }
    }

    /// The cursor that the next request carries: only a tailing state with a
    /// set cursor has one.
    pub open spec fn cursor_param(self) -> Option<Seq<char>> {
        match self.mode@ {
            ModeView::InitialSync { .. } => None,
            ModeView::Live { cursor, .. } => cursor,
        }
    }

    /// The exact request URL the current state determines:
    /// `{host}/v1/shape?table={table}&offset={offset}` followed by
    /// `&handle=`, `&cursor=` and `&live=true` exactly when the state calls
    /// for them.
    pub open spec fn url_spec(self) -> Seq<char> {
        self.host@ + "/v1/shape?table="@ + self.table@ + "&offset="@ + self.offset_param() + (
        match self.handle_param() {
            Some(h) => "&handle="@ + h,
            None => Seq::<char>::empty(),
        }) + (match self.cursor_param() {
            Some(c) => "&cursor="@ + c,
            None => Seq::<char>::empty(),
        }) + (if self.mode@ is Live {
            "&live=true"@
        } else {
            Seq::<char>::empty()
        })
    }

    /// A new stream in the catch-up phase, the position optionally seeded by
    /// the caller, the subscription not yet assigned.
    pub fn new(host: &str, table: &str, offset: Option<&str>) -> (r: Self)
        ensures
            r.host@ == host@,
            r.table@ == table@,
            r.mode@ == (ModeView::InitialSync {
                offset: offset.deep_view(),
                handle: None::<Seq<char>>,
            }),
    {
        let offset = match offset {
            Some(o) => Some(o.to_owned()),
            None => None,
        };
        Self {
            mode: Mode::InitialSync { offset, handle: None },
            host: host.to_owned(),
            table: table.to_owned(),
        }
    }

    /// The serialized position token of the next request.
    pub fn get_offset(&self) -> (r: String)
        ensures
            r@ == self.offset_param(),
    {
        match &self.mode {
            Mode::InitialSync { offset, handle: _ } => match offset {
                Some(offset) => offset.clone(),
                None => "-1".to_owned(),
            },
            Mode::Live { offset, handle: _, cursor: _ } => offset.clone(),
        }
    }

    /// The subscription handle of the next request, if one is assigned.
    pub fn get_handle(&self) -> (r: Option<String>)
        ensures
            r.deep_view() == self.handle_param(),
    {
        match &self.mode {
            Mode::InitialSync { offset: _, handle } => handle.clone(),
            Mode::Live { offset: _, handle, cursor: _ } => Some(handle.clone()),
        }
    }

    /// The cursor of the next request, if the tailing state holds one.
    pub fn get_cursor(&self) -> (r: Option<String>)
        ensures
            r.deep_view() == self.cursor_param(),
    {
        match &self.mode {
            Mode::InitialSync { offset: _, handle: _ } => None,
            Mode::Live { offset: _, handle: _, cursor } => cursor.clone(),
        }
    }

    /// Builds the next request URL from the current state alone.
    pub fn get_url(&self) -> (r: String)
        ensures
            r@ == self.url_spec(),
    {
        let mut url = self.host.clone();
        url.append("/v1/shape?table=");
        url.append(self.table.as_str());
        url.append("&offset=");
        let offset = self.get_offset();
        url.append(offset.as_str());
        if let Some(handle) = self.get_handle() {
            url.append("&handle=");
            url.append(handle.as_str());
        }
        if let Some(cursor) = self.get_cursor() {
            url.append("&cursor=");
            url.append(cursor.as_str());
        }
        match &self.mode {
            Mode::InitialSync { .. } => (),
            Mode::Live { .. } => {
                url.append("&live=true");
            },
        }
        proof {
            assert(url@ =~= self.url_spec());
        }
        url
    }

    /// Applies one response's protocol signals to the continuation state, as
    /// [`advance_mode`] describes.  On an error the state is left unchanged;
    /// in particular, the error is `ProtocolViolation` exactly when the
    /// up-to-date signal asks for the transition into the tailing phase and
    /// the response is missing the position token or the subscription handle.
    pub fn advance(&mut self, resp: &Response) -> (r: Result<(), Error>)
        ensures
            final(self).host == old(self).host,
            final(self).table == old(self).table,
            match advance_result(old(self).mode@, *resp) {
                Ok(m2) => r is Ok && final(self).mode@ == m2,
                Err(e) => r == Err::<(), Error>(e) && final(self).mode@ == old(self).mode@,
            },
            r is Err <==> (old(self).mode@ is InitialSync && resp.up_to_date_spec() && (
            resp.offset_spec() is None || resp.handle_spec() is None)),
    {
        let off = Self::extract_offset(&resp.headers);
        let handle = Self::extract_handle(&resp.headers);
        let cursor = Self::extract_cursor(&resp.headers);
        let up_to_date = Self::is_up_to_date(&resp.headers);
        let next: Result<Mode, Error> = match &self.mode {
            Mode::InitialSync { offset: old_off, handle: old_handle } => {
                if up_to_date {
                    match (off, handle) {
                        (Some(o), Some(h)) => Ok(Mode::Live { offset: o, handle: h, cursor }),
                        _ => Err(Error::ProtocolViolation),
                    }
                } else {
                    let offset = match off {
                        Some(o) => Some(o),
                        None => old_off.clone(),
                    };
                    let handle = match handle {
                        Some(h) => Some(h),
                        None => old_handle.clone(),
                    };
                    Ok(Mode::InitialSync { offset, handle })
                }
            },
            Mode::Live { offset: old_off, handle: old_handle, cursor: _ } => {
                let offset = match off {
                    Some(o) => o,
                    None => old_off.clone(),
                };
                let handle = match handle {
                    Some(h) => h,
                    None => old_handle.clone(),
                };
                Ok(Mode::Live { offset, handle, cursor })
            },
        };
        match next {
            Ok(mode) => {
                self.mode = mode;
                Ok(())
            },
            Err(e) => Err(e),
        }
    }

    /// One step of the catch-up fetch loop: check the status, advance the
    /// state, append the body (and a newline) to the accumulated unit, and
    /// report whether the response's up-to-date signal completed the
    /// catch-up.  The caller re-requests with the URL of the new state while
    /// the step returns `Ok(false)`.  On an error, state and accumulator are
    /// left unchanged.
    pub fn initial_sync_step(&mut self, resp: &Response, acc: &mut String) -> (r: Result<
        bool,
        Error,
    >)
        requires
            old(self).mode@ is InitialSync,
        ensures
            final(self).host == old(self).host,
            final(self).table == old(self).table,
            match sync_step_result(old(self).mode@, *resp, old(acc)@) {
                Ok((m2, a2, done)) => {
                    &&& r == Ok::<bool, Error>(done)
                    &&& final(self).mode@ == m2
                    &&& final(acc)@ == a2
                    &&& done <==> m2 is Live
                },
                Err(e) => {
                    &&& r == Err::<bool, Error>(e)
                    &&& final(self).mode@ == old(self).mode@
                    &&& final(acc)@ == old(acc)@
                },
            },
    {
        if !is_success(resp.status) {
            return Err(Error::UnsuccessfulResponse(resp.status));
        }
        let up_to_date = Self::is_up_to_date(&resp.headers);
        match self.advance(resp) {
            Ok(()) => (),
            Err(e) => {
                return Err(e);
            },
        }
        acc.append(resp.body.as_str());
        acc.append("\n");
        Ok(up_to_date)
    }

    /// One step of the tailing fetch loop.  A no-content (204) response never
    /// completes the unit: the state still advances, the accumulator is
    /// untouched, and `Ok(false)` sends the caller into exactly one more
    /// request.  Any other successful response appends its body, and the unit
    /// is complete exactly when the response carries the up-to-date signal.
    /// The tailing phase is never left, whatever the response holds.
    pub fn live_step(&mut self, resp: &Response, acc: &mut String) -> (r: Result<bool, Error>)
        requires
            old(self).mode@ is Live,
        ensures
            final(self).host == old(self).host,
            final(self).table == old(self).table,
            final(self).mode@ is Live,
            match live_step_result(old(self).mode@, *resp, old(acc)@) {
                Ok((m2, a2, done)) => {
                    &&& r == Ok::<bool, Error>(done)
                    &&& final(self).mode@ == m2
                    &&& final(acc)@ == a2
                },
                Err(e) => {
                    &&& r == Err::<bool, Error>(e)
                    &&& final(self).mode@ == old(self).mode@
                    &&& final(acc)@ == old(acc)@
                },
            },
            spec_is_success(resp.status) && resp.status == 204 ==> r == Ok::<bool, Error>(false)
                && final(acc)@ == old(acc)@,
    {
        if !is_success(resp.status) {
            return Err(Error::UnsuccessfulResponse(resp.status));
        }
        let up_to_date = Self::is_up_to_date(&resp.headers);
        match self.advance(resp) {
            Ok(()) => (),
            Err(e) => {
                return Err(e);
            },
        }
        if resp.status == 204 {
            return Ok(false);
        }
        acc.append(resp.body.as_str());
        acc.append("\n");
        Ok(up_to_date)
    }
}

impl ShapeStream {
    /// Whether the response carries the up-to-date signal: presence of the
    /// `electric-up-to-date` header, whatever its value.
    pub fn is_up_to_date(headers: &Vec<(String, String)>) -> (r: bool)
        ensures
            r == (spec_header_value(headers@, "electric-up-to-date"@) is Some),
    {
        let name = "electric-up-to-date".to_owned();
        lookup_header(headers, &name).is_some()
    }

    /// The subscription handle a response carries: header `electric-handle`.
    pub fn extract_handle(headers: &Vec<(String, String)>) -> (r: Option<String>)
        ensures
            r.deep_view() == spec_header_value(headers@, "electric-handle"@),
    {
        let name = "electric-handle".to_owned();
        lookup_header(headers, &name)
    }

    /// The position token a response carries: header `electric-offset`.
    pub fn extract_offset(headers: &Vec<(String, String)>) -> (r: Option<String>)
        ensures
            r.deep_view() == spec_header_value(headers@, "electric-offset"@),
    {
        let name = "electric-offset".to_owned();
        lookup_header(headers, &name)
    }

    /// The tailing cursor a response carries: header `electric-cursor`.
    pub fn extract_cursor(headers: &Vec<(String, String)>) -> (r: Option<String>)
        ensures
            r.deep_view() == spec_header_value(headers@, "electric-cursor"@),
    {
        let name = "electric-cursor".to_owned();
        lookup_header(headers, &name)
    }
}

} // verus!
