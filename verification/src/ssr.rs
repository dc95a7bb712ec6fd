//! The rendering system: which renderer a call uses, what is sent for it, and
//! what each call ends in.

use crate::error::RenderingError;
use crate::json::{
    escaped_markup, json_error_description, json_error_text, json_string_encoding, to_vec,
};
use crate::protocol::{
    encode_frame, envelope_json, frame_bytes, optional_str, optional_text, RequestEnvelope,
    RequestUrl,
};
use crate::session::{
    is_run, lemma_refusal_sends_nothing, RenderAction, RenderEvent, RenderPhase, RenderSession,
};
use crate::worker::{JsWorkerLog, Worker};
use vstd::prelude::*;

verus! {

/// Which renderer module a call uses.
#[derive(Debug, Clone, PartialEq, Eq)]
pub enum JsRenderer {
    /// The module that the system was configured with.
    Global,
    /// A module for this call alone. It is used whether or not a global
    /// renderer is configured.
    PerRequest {
        /// The path of the module.
        path: String,
    },
}

/// What the system is constructed from.
#[derive(Debug, Clone, PartialEq, Eq)]
pub struct SsrConfig {
    /// The port on which the renderer process will listen.
    pub port: u16,
    /// The path of the renderer's entry module, relative to the working
    /// directory. It has to name an existing file.
    pub js_worker: String,
    /// How much the renderer process reports.
    pub js_worker_log: JsWorkerLog,
    /// The module that renders every call that names no other. If it is
    /// given, it has to name an existing file.
    pub global_js_renderer: Option<String>,
}

/// The rendering system: the worker, and the absolute paths that it was
/// started with.
#[derive(Debug, Clone, PartialEq, Eq)]
pub struct Ssr {
    pub worker: Worker,
    pub js_worker: String,
    pub global_js_renderer: Option<String>,
}

/// The envelope of a call, or the reason why the call cannot be made: a
/// target without a path is refused first, then a call for the global
/// renderer where none is configured. A renderer given for the call is
/// named in the envelope; the global renderer is not.
pub open spec fn envelope_for(
    global_js_renderer: Option<String>,
    request_id: String,
    url: Option<RequestUrl>,
    js_renderer: JsRenderer,
) -> Result<RequestEnvelope, RenderingError> {
    match url {
        None => Err(RenderingError::InvalidUri),
        Some(url) => match js_renderer {
            JsRenderer::PerRequest { path } => Ok(
                RequestEnvelope { request_id, request_renderer: Some(path), url },
            ),
            JsRenderer::Global => if global_js_renderer is Some {
                Ok(RequestEnvelope { request_id, request_renderer: None, url })
            } else {
                Err(RenderingError::GlobalRendererNotProvided)
            },
        },
    }
}

/// The frame that carries `meta` and the payload whose JSON text is
/// `payload`: the payload goes as a JSON string literal with its markup
/// escaped.
pub open spec fn request_frame(meta: Seq<u8>, payload: Seq<char>) -> Seq<u8> {
    frame_bytes(meta, escaped_markup(json_string_encoding(payload)))
}

/// Whether `outcome` is what encoding the request gives: the frame that
/// carries the envelope as JSON and the payload as an escaped JSON string
/// literal, or, where the payload comes as the failure to write it as JSON,
/// `DataSerializationError` with the text of that failure.
pub open spec fn encodes_request(
    envelope: RequestEnvelope,
    data: Result<String, serde_json::Error>,
    outcome: Result<Vec<u8>, RenderingError>,
) -> bool {
    match data {
        Ok(payload) => outcome matches Ok(frame) && frame@ == request_frame(
            envelope.json(),
            payload@,
        ),
        Err(err) => outcome matches Err(RenderingError::DataSerializationError(reason))
            && reason@ == json_error_description(err),
    }
}

/// The frame made of the two encoded parts, or the reason why there is none.
/// A failure to encode the metadata is reported before one to encode the
/// payload.
pub fn assemble_request(meta: Result<Vec<u8>, String>, data: Result<Vec<u8>, String>) -> (res:
    Result<Vec<u8>, RenderingError>)
    ensures
        match (meta, data) {
            (Ok(meta), Ok(data)) => res matches Ok(frame) && frame@ == frame_bytes(meta@, data@),
            (Ok(_), Err(reason)) => res == Err::<Vec<u8>, RenderingError>(
                RenderingError::DataSerializationError(reason),
            ),
            (Err(reason), _) => res == Err::<Vec<u8>, RenderingError>(
                RenderingError::UrlSerializationError(reason),
            ),
        },
{
    match meta {
        Err(reason) => Err(RenderingError::UrlSerializationError(reason)),
        Ok(meta) => match data {
            Err(reason) => Err(RenderingError::DataSerializationError(reason)),
            Ok(data) => Ok(encode_frame(meta.as_slice(), data.as_slice())),
        },
    }
}

/// Encodes the request: the envelope as JSON, and the payload, which comes
/// as JSON text or as the failure to write it as such, as an escaped JSON
/// string literal.
pub fn encode_request(envelope: &RequestEnvelope, data: Result<String, serde_json::Error>) -> (res:
    Result<Vec<u8>, RenderingError>)
    ensures
        encodes_request(*envelope, data, res),
{
    let meta: Result<Vec<u8>, String> = match envelope.to_json() {
        Ok(bytes) => Ok(bytes),
        Err(err) => Err(json_error_text(&err)),
    };
    let data: Result<Vec<u8>, String> = match data {
        Ok(payload) => match to_vec(payload.as_str()) {
            Ok(bytes) => Ok(bytes),
            Err(err) => Err(json_error_text(&err)),
        },
        Err(err) => Err(json_error_text(&err)),
    };
    assemble_request(meta, data)
}

/// Whether `c` is a digit or one of the letters `a` to `f`.
pub open spec fn is_lower_hex(c: char) -> bool {
    ('0' <= c && c <= '9') || ('a' <= c && c <= 'f')
}

/// Whether `text` has the form of a request identifier: 32 lower-case
/// hexadecimal digits in groups of 8, 4, 4, 4 and 12, with a hyphen between
/// one group and the next.
pub open spec fn is_request_id(text: Seq<char>) -> bool {
    &&& text.len() == 36
    &&& forall|i: int|
        0 <= i < 36 ==> if i == 8 || i == 13 || i == 18 || i == 23 {
            #[trigger] text[i] == '-'
        } else {
            is_lower_hex(text[i])
        }
}

/// `Uuid::new_v4` of the `uuid` crate, written out by its `Display`: a
/// random identifier in hyphenated lower-case form. Two calls may give two
/// identifiers; only the form is known. It panics where the operating system
/// hands out no random bytes.
#[verifier::external_body]
fn fresh_request_id() -> (res: String)
    ensures
        is_request_id(res@),
{
    uuid::Uuid::new_v4().to_string()
}

/// `http::Uri`: a request target. It is carried through as it is.
#[verifier::external_type_specification]
#[verifier::external_body]
pub struct ExUri(http::Uri);

/// `http::uri::PathAndQuery`: the path and query of a request target. It is
/// carried through as it is.
#[verifier::external_type_specification]
#[verifier::external_body]
pub struct ExPathAndQuery(http::uri::PathAndQuery);

/// The path and the query that a request target holds, if it holds any:
/// what `Uri::path_and_query` gives for `uri`, with the path and the query
/// read out of it.
pub uninterp spec fn request_target(uri: http::Uri) -> Option<(Seq<char>, Option<Seq<char>>)>;

/// What `PathAndQuery::path` gives for `target`.
pub uninterp spec fn target_path(target: http::uri::PathAndQuery) -> Seq<char>;

/// What `PathAndQuery::query` gives for `target`.
pub uninterp spec fn target_query(target: http::uri::PathAndQuery) -> Option<Seq<char>>;

/// `Uri::path_and_query` of the `http` crate: the path and query of a
/// request target, if it has any. What it gives depends on `uri` alone; the
/// path and the query of what it gives are those named for `uri`.
pub assume_specification[ http::Uri::path_and_query ](uri: &http::Uri) -> (res: Option<
    &http::uri::PathAndQuery,
>)
    ensures
        request_target(*uri) == (match res {
            Some(target) => Some((target_path(*target), target_query(*target))),
            None => None,
        }),
;

/// `PathAndQuery::path` of the `http` crate: the path of a request target,
/// which depends on the target alone.
pub assume_specification[ http::uri::PathAndQuery::path ](
    target: &http::uri::PathAndQuery,
) -> (res: &str)
    ensures
        res@ == target_path(*target),
;

/// `PathAndQuery::query` of the `http` crate: the query of a request
/// target, if it has one, which depends on the target alone.
pub assume_specification[ http::uri::PathAndQuery::query ](
    target: &http::uri::PathAndQuery,
) -> (res: Option<&str>)
    ensures
        optional_str(res) == target_query(*target),
;

/// The path and the query of a request target as characters.
pub open spec fn target_view(url: Option<RequestUrl>) -> Option<(Seq<char>, Option<Seq<char>>)> {
    match url {
        Some(url) => Some((url.path@, optional_text(url.query))),
        None => None,
    }
}

/// Copies the path and the query out of a request target; `None` for a
/// target that has neither.
fn path_and_query(uri: &http::Uri) -> (res: Option<RequestUrl>)
    ensures
        target_view(res) == request_target(*uri),
{
    match uri.path_and_query() {
        Some(target) => Some(RequestUrl::new(target.path(), target.query())),
        None => None,
    }
}

impl Ssr {
    /// Builds the envelope of a call, or says why the call cannot be made.
    pub fn envelope(
        &self,
        request_id: String,
        url: Option<RequestUrl>,
        js_renderer: JsRenderer,
    ) -> (res: Result<RequestEnvelope, RenderingError>)
        ensures
            res == envelope_for(self.global_js_renderer, request_id, url, js_renderer),
    {
        match url {
            None => Err(RenderingError::InvalidUri),
            Some(url) => match js_renderer {
                JsRenderer::PerRequest { path } => Ok(
                    RequestEnvelope { request_id, request_renderer: Some(path), url },
                ),
                JsRenderer::Global => match &self.global_js_renderer {
                    Some(_) => Ok(RequestEnvelope { request_id, request_renderer: None, url }),
                    None => Err(RenderingError::GlobalRendererNotProvided),
                },
            },
        }
    }

    /// Whether `outcome` is what a call with these arguments has to send:
    /// the frame of its envelope and payload, or the reason why nothing is
    /// sent.
    pub open spec fn is_request_for(
        &self,
        outcome: Result<Vec<u8>, RenderingError>,
        request_id: String,
        url: Option<RequestUrl>,
        data: Result<String, serde_json::Error>,
        js_renderer: JsRenderer,
    ) -> bool {
        match envelope_for(self.global_js_renderer, request_id, url, js_renderer) {
            Err(reason) => outcome == Err::<Vec<u8>, RenderingError>(reason),
            Ok(envelope) => encodes_request(envelope, data, outcome),
        }
    }

    /// The frame to send for a call, or the reason why nothing is sent.
    pub fn request(
        &self,
        request_id: String,
        url: Option<RequestUrl>,
        data: Result<String, serde_json::Error>,
        js_renderer: JsRenderer,
    ) -> (res: Result<Vec<u8>, RenderingError>)
        ensures
            self.is_request_for(res, request_id, url, data, js_renderer),
    {
        match self.envelope(request_id, url, js_renderer) {
            Ok(envelope) => encode_request(&envelope, data),
            Err(reason) => Err(reason),
        }
    }

    /// Whether `session` and `action` open the call with these arguments
    /// under the identifier `request_id`: the first connection attempt is
    /// made at once, and what is to be sent is settled.
    pub open spec fn opens_call(
        &self,
        session: RenderSession,
        action: RenderAction,
        request_id: String,
        url: Option<RequestUrl>,
        data: Result<String, serde_json::Error>,
        js_renderer: JsRenderer,
    ) -> bool {
        &&& action == RenderAction::Connect { delay_ms: 0 }
        &&& session.request_id == request_id
        &&& session.phase matches RenderPhase::Connecting { attempt, request }
        &&& attempt == 1
        &&& self.is_request_for(request, request_id, url, data, js_renderer)
    }

    /// Opens a rendering call under the identifier `request_id`.
    pub fn render_with_request_id(
        &self,
        request_id: String,
        url: Option<RequestUrl>,
        data: Result<String, serde_json::Error>,
        js_renderer: JsRenderer,
    ) -> (res: (RenderSession, RenderAction))
        ensures
            self.opens_call(res.0, res.1, request_id, url, data, js_renderer),
    {
        let request = self.request(request_id.clone(), url, data, js_renderer);
        (
            RenderSession { request_id, phase: RenderPhase::Connecting { attempt: 1, request } },
            RenderAction::Connect { delay_ms: 0 },
        )
    }

    /// Opens a rendering call: for the request target `uri`, the payload
    /// whose JSON text is `data` (or the failure to write it as JSON), and the
    /// renderer that `js_renderer` chooses. The call gets a fresh identifier.
    /// The caller carries out the action, reports how it ended to
    /// `RenderSession::advance`, and goes on so until that hands back the
    /// result.
    pub fn render(
        &self,
        uri: &http::Uri,
        data: Result<String, serde_json::Error>,
        js_renderer: JsRenderer,
    ) -> (res: (RenderSession, RenderAction))
        ensures
            is_request_id(res.0.request_id@),
            exists|url: Option<RequestUrl>|
                target_view(url) == request_target(*uri) && #[trigger] self.opens_call(
                    res.0,
                    res.1,
                    res.0.request_id,
                    url,
                    data,
                    js_renderer,
                ),
    {
        let url = path_and_query(uri);
        let res = self.render_with_request_id(fresh_request_id(), url, data, js_renderer);
        assert(self.opens_call(res.0, res.1, res.0.request_id, url, data, js_renderer));
        res
    }
}

/// A renderer given for the call is the one that the envelope names,
/// whether or not a global renderer is configured.
pub proof fn lemma_request_renderer_overrides_global(
    global_js_renderer: Option<String>,
    request_id: String,
    url: RequestUrl,
    path: String,
)
    ensures
        envelope_for(
            global_js_renderer,
            request_id,
            Some(url),
            JsRenderer::PerRequest { path },
        ) matches Ok(envelope) && envelope.request_renderer == Some(path) && envelope.json()
            == envelope_json(request_id@, Some(path@), url.path@, optional_text(url.query)),
{
}

/// A call for the global renderer where none is configured writes nothing
/// to the socket, whatever happens to the connection: it ends with
/// `GlobalRendererNotProvided` once connected, or with the error of the
/// connection.
pub proof fn lemma_missing_global_renderer_sends_nothing(
    system: Ssr,
    session: RenderSession,
    first: RenderAction,
    url: RequestUrl,
    data: Result<String, serde_json::Error>,
    phases: Seq<RenderPhase>,
    events: Seq<RenderEvent>,
    actions: Seq<Option<RenderAction>>,
)
    requires
        system.global_js_renderer is None,
        system.opens_call(session, first, session.request_id, Some(url), data, JsRenderer::Global),
        is_run(phases, events, actions),
        phases[0] == session.phase,
    ensures
        first is Connect,
        forall|i: int|
            0 <= i < actions.len() ==> match #[trigger] actions[i] {
                Some(RenderAction::Write { .. }) => false,
                Some(RenderAction::Read) => false,
                Some(RenderAction::Return { result, shutdown }) => (result == Err::<
                    String,
                    RenderingError,
                >(RenderingError::GlobalRendererNotProvided) && shutdown) || (result matches Err(
                    RenderingError::ConnectionError(_),
                ) && !shutdown),
                _ => true,
            },
{
    lemma_refusal_sends_nothing(phases, events, actions, RenderingError::GlobalRendererNotProvided);
}

/// A call for a target without a path writes nothing to the socket,
/// whatever happens to the connection: it ends with `InvalidUri` once
/// connected, or with the error of the connection.
pub proof fn lemma_target_without_path_sends_nothing(
    system: Ssr,
    session: RenderSession,
    first: RenderAction,
    data: Result<String, serde_json::Error>,
    js_renderer: JsRenderer,
    phases: Seq<RenderPhase>,
    events: Seq<RenderEvent>,
    actions: Seq<Option<RenderAction>>,
)
    requires
        system.opens_call(session, first, session.request_id, None, data, js_renderer),
        is_run(phases, events, actions),
        phases[0] == session.phase,
    ensures
        first is Connect,
        forall|i: int|
            0 <= i < actions.len() ==> match #[trigger] actions[i] {
                Some(RenderAction::Write { .. }) => false,
                Some(RenderAction::Read) => false,
                Some(RenderAction::Return { result, shutdown }) => (result == Err::<
                    String,
                    RenderingError,
                >(RenderingError::InvalidUri) && shutdown) || (result matches Err(
                    RenderingError::ConnectionError(_),
                ) && !shutdown),
                _ => true,
            },
{
    lemma_refusal_sends_nothing(phases, events, actions, RenderingError::InvalidUri);
}

} // verus!
