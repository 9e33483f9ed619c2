//! The HTTP-over-messaging gateway: requests that arrive on the bus as an
//! envelope and a run of body chunks are put together again and handed on
//! to a server on this machine; its answer goes back to the subject the
//! envelope named.

use crate::digest::{digest, is_lower_hex, sha256_hex};
use crate::errors::AppServicesErrorCodes;
use crate::headers::{
    append_bytes, lookup, lookup_ignoring_case, opt_view, value_of, value_of_ignoring_case,
};
use crate::text::{
    decimal_digits, decimal_usize, ends_with, has_suffix, join3, lemma_split_joined,
    lemma_split_whole, pair_views, parse_usize, same_text, split, split_on, u16_to_decimal, views,
};
use vstd::prelude::*;

verus! {

/// The envelope of a tunnelled request, as the remote side sends it.
#[derive(Clone, Debug, PartialEq, Eq)]
pub struct IncomingHttpRequest {
    pub uri: String,
    pub method: String,
    pub req_id: String,
    pub headers: Vec<(String, String)>,
}

/// The acknowledgement of a settings message.
#[derive(Clone, Debug, PartialEq, Eq)]
pub struct SettingsAckPayload {
    pub status: String,
}

/// The subjects the gateway listens on.
#[derive(Clone, Debug, PartialEq, Eq)]
pub enum AppServicesSubjects {
    Request(String),
}

/// The subscriptions the gateway holds; `S` is the broker's subscription.
#[derive(Debug)]
pub struct ProvisioningSubscriber<S> {
    pub request: Option<S>,
}

/// A task as it is queued by a remote caller.
#[derive(Clone, Debug, PartialEq, Eq)]
pub struct AddTaskRequestPayload {
    pub key: String,
    pub value: String,
    pub created_at: String,
}

/// The settings of one application service.
#[derive(Clone, Debug, PartialEq, Eq)]
pub struct AppServiceSettings {
    pub app_id: String,
    pub app_name: String,
    pub dns_name: String,
    pub port_mapping: Vec<PortMapping>,
}

/// One mapping of a port of this machine to a port of the gateway.
#[derive(Clone, Debug, PartialEq, Eq)]
pub struct PortMapping {
    pub local_port: String,
    pub target_port: String,
    pub protocol: String,
}

/// The answer of the local server, as it is sent back over the bus.
#[derive(Clone, Debug, PartialEq, Eq)]
pub struct ResponseBody {
    pub headers: Vec<(String, String)>,
    pub body: Vec<u8>,
}

/// A tunnelled request while its body is put together.
#[derive(Debug, PartialEq, Eq)]
pub struct RequestState {
    pub uri: String,
    pub req_headers: Vec<(String, String)>,
    pub req_method: String,
    pub req_body: Vec<u8>,
    pub content_length: usize,
}

/// What a tunnelled request is: where it goes, how, and the bytes of its
/// body so far, out of `content_length` announced.
pub struct HttpRequestModel {
    pub uri: Seq<char>,
    pub method: Seq<char>,
    pub headers: Seq<(Seq<char>, Seq<char>)>,
    pub body: Seq<u8>,
    pub content_length: nat,
}

impl View for RequestState {
    type V = HttpRequestModel;

    open spec fn view(&self) -> HttpRequestModel {
        HttpRequestModel {
            uri: self.uri@,
            method: self.req_method@,
            headers: pair_views(self.req_headers@),
            body: self.req_body@,
            content_length: self.content_length as nat,
        }
    }
}

/// The request a local server is to be sent.
#[derive(Clone, Debug, PartialEq, Eq)]
pub struct LocalRequest {
    pub url: String,
    pub remote_host_addr: String,
    pub method: String,
    pub headers: Vec<(String, String)>,
    pub body: Vec<u8>,
}

/// What a request to a local server is.
pub struct LocalRequestModel {
    pub url: Seq<char>,
    pub remote_host_addr: Seq<char>,
    pub method: Seq<char>,
    pub headers: Seq<(Seq<char>, Seq<char>)>,
    pub body: Seq<u8>,
}

impl View for LocalRequest {
    type V = LocalRequestModel;

    open spec fn view(&self) -> LocalRequestModel {
        LocalRequestModel {
            url: self.url@,
            remote_host_addr: self.remote_host_addr@,
            method: self.method@,
            headers: pair_views(self.headers@),
            body: self.body@,
        }
    }
}

/// The answer to a tunnelled request, with the subject it is published on.
#[derive(Clone, Debug, PartialEq, Eq)]
pub struct AckReply {
    pub subject: String,
    pub response: ResponseBody,
}

/// The requests whose bodies are still being put together, by request id.
pub struct RequestMap {
    entries: Vec<(String, RequestState)>,
}

/// The map a list of entries stands for; a later entry of the same id
/// replaces an earlier one.
spec fn entries_map(e: Seq<(String, RequestState)>) -> Map<Seq<char>, HttpRequestModel>
    decreases e.len(),
{
    if e.len() == 0 {
        Map::empty()
    } else {
        entries_map(e.drop_last()).insert(e.last().0@, e.last().1@)
    }
}

/// No two entries have the same request id.
spec fn distinct_ids(e: Seq<(String, RequestState)>) -> bool {
    forall|i: int, j: int| 0 <= i < j < e.len() ==> e[i].0@ != e[j].0@
}

proof fn lemma_entries_lookup(e: Seq<(String, RequestState)>, id: Seq<char>)
    ensures
        entries_map(e).dom().contains(id) <==> exists|i: int| 0 <= i < e.len() && e[i].0@ == id,
        forall|i: int|
            0 <= i < e.len() && distinct_ids(e) && e[i].0@ == id ==> entries_map(e)[id] == e[i].1@,
    decreases e.len(),
{
    if e.len() > 0 {
        let head = e.drop_last();
        lemma_entries_lookup(head, id);
        if e.last().0@ == id {
            assert(e[e.len() - 1].0@ == id);
        } else {
            if entries_map(e).dom().contains(id) {
                let i = choose|i: int| 0 <= i < head.len() && head[i].0@ == id;
                assert(e[i].0@ == id);
            }
            if exists|i: int| 0 <= i < e.len() && e[i].0@ == id {
                let i = choose|i: int| 0 <= i < e.len() && e[i].0@ == id;
                assert(head[i].0@ == id);
            }
        }
        assert forall|i: int|
            0 <= i < e.len() && distinct_ids(e) && e[i].0@ == id implies entries_map(e)[id]
            == e[i].1@ by {
            if i < e.len() - 1 {
                assert(head[i].0@ == id);
                assert(distinct_ids(head));
            }
        }
    }
}

proof fn lemma_entries_remove(e: Seq<(String, RequestState)>, i: int)
    requires
        distinct_ids(e),
        0 <= i < e.len(),
    ensures
        entries_map(e.remove(i)) == entries_map(e).remove(e[i].0@),
        distinct_ids(e.remove(i)),
    decreases e.len(),
{
    let head = e.drop_last();
    assert(distinct_ids(head));
    if i == e.len() - 1 {
        assert(e.remove(i) =~= head);
        lemma_entries_lookup(head, e[i].0@);
        assert(entries_map(e).remove(e[i].0@) =~= entries_map(head));
    } else {
        lemma_entries_remove(head, i);
        assert(e.remove(i).drop_last() =~= head.remove(i));
        assert(e.remove(i).last() == e.last());
        assert(entries_map(e.remove(i)) =~= entries_map(e).remove(e[i].0@));
    }
}

/// The length the headers announce for the body: 0 where no
/// `content-length` header is present, nothing where its value is no
/// unsigned decimal number.
pub open spec fn declared_length(headers: Seq<(Seq<char>, Seq<char>)>) -> Option<usize> {
    match value_of_ignoring_case(headers, "content-length"@) {
        None => Some(0usize),
        Some(v) => decimal_usize(v),
    }
}

/// The request id a subject carries: its fifth segment, where it has at
/// least six.
pub open spec fn req_id_of(subject: Seq<char>) -> Option<Seq<char>> {
    let parts = split(subject, '.');
    if parts.len() >= 6 {
        Some(parts[4])
    } else {
        None
    }
}

/// The request an envelope opens, with nothing of its body yet.
pub open spec fn opened(request: IncomingHttpRequest, length: usize) -> HttpRequestModel {
    HttpRequestModel {
        uri: request.uri@,
        method: request.method@,
        headers: pair_views(request.headers@),
        body: Seq::<u8>::empty(),
        content_length: length as nat,
    }
}

/// A request with one more chunk of its body.
pub open spec fn with_chunk(state: HttpRequestModel, chunk: Seq<u8>) -> HttpRequestModel {
    HttpRequestModel { body: state.body + chunk, ..state }
}

/// What one step of the assembly gives: a request that is complete, nothing
/// yet, or the reason the message was refused.
pub type Assembled = Result<Option<HttpRequestModel>, AppServicesErrorCodes>;

/// The view of what an assembly step returned.
pub open spec fn assembled_view(
    r: Result<Option<RequestState>, AppServicesErrorCodes>,
) -> Assembled {
    match r {
        Ok(Some(state)) => Ok(Some(state@)),
        Ok(None) => Ok(None),
        Err(e) => Err(e),
    }
}

/// The pending requests after an envelope: unchanged where the announced
/// length cannot be read; without an entry for the request's id where the
/// body is empty; with a fresh entry under that id otherwise.
pub open spec fn after_envelope(
    pending: Map<Seq<char>, HttpRequestModel>,
    request: IncomingHttpRequest,
) -> Map<Seq<char>, HttpRequestModel> {
    match declared_length(pair_views(request.headers@)) {
        None => pending,
        Some(n) => if n == 0 {
            pending.remove(request.req_id@)
        } else {
            pending.insert(request.req_id@, opened(request, n))
        },
    }
}

/// What an envelope gives: the request itself where no body is to follow,
/// nothing yet where one is, an error where the announced length cannot be
/// read.
pub open spec fn envelope_result(request: IncomingHttpRequest) -> Assembled {
    match declared_length(pair_views(request.headers@)) {
        None => Err(AppServicesErrorCodes::ContentLengthParseError),
        Some(n) => if n == 0 {
            Ok(Some(opened(request, n)))
        } else {
            Ok(None)
        },
    }
}

/// The pending requests after a chunk on `subject`: unchanged where the
/// subject names no pending request; the named request grown by the chunk
/// while it stays short of the announced length; without it once the length
/// is reached or passed.
pub open spec fn after_chunk(
    pending: Map<Seq<char>, HttpRequestModel>,
    subject: Seq<char>,
    chunk: Seq<u8>,
) -> Map<Seq<char>, HttpRequestModel> {
    match req_id_of(subject) {
        None => pending,
        Some(id) => if !pending.dom().contains(id) {
            pending
        } else if pending[id].body.len() + chunk.len() < pending[id].content_length {
            pending.insert(id, with_chunk(pending[id], chunk))
        } else {
            pending.remove(id)
        },
    }
}

/// What a chunk on `subject` gives: an error where the subject carries no
/// request id; nothing where the id is unknown or the body still short; the
/// complete request where the chunk brings the body to the announced length;
/// an error where it takes it past that length.
pub open spec fn chunk_result(
    pending: Map<Seq<char>, HttpRequestModel>,
    subject: Seq<char>,
    chunk: Seq<u8>,
) -> Assembled {
    match req_id_of(subject) {
        None => Err(AppServicesErrorCodes::ReqIdParseError),
        Some(id) => if !pending.dom().contains(id) {
            Ok(None)
        } else if pending[id].body.len() + chunk.len() < pending[id].content_length {
            Ok(None)
        } else if pending[id].body.len() + chunk.len() == pending[id].content_length {
            Ok(Some(with_chunk(pending[id], chunk)))
        } else {
            Err(AppServicesErrorCodes::OversizedBodyError)
        },
    }
}

/// Every pending request is short of the length announced for it.
pub open spec fn all_short(pending: Map<Seq<char>, HttpRequestModel>) -> bool {
    forall|id: Seq<char>| #[trigger]
        pending.dom().contains(id) ==> pending[id].body.len() < pending[id].content_length
}

impl RequestMap {
    /// The pending requests, by request id.
    pub closed spec fn view(&self) -> Map<Seq<char>, HttpRequestModel> {
        entries_map(self.entries@)
    }

    /// The ids are distinct and every pending body is short of its length.
    #[verifier::type_invariant]
    spec fn wf(&self) -> bool {
        &&& distinct_ids(self.entries@)
        &&& forall|i: int|
            0 <= i < self.entries@.len() ==> (#[trigger] self.entries@[i]).1.req_body@.len()
                < self.entries@[i].1.content_length
    }

    proof fn lemma_pending_short(&self)
        requires
            self.wf(),
        ensures
            all_short(self@),
    {
        assert forall|id: Seq<char>| #[trigger] self@.dom().contains(id) implies self@[id].body.len()
            < self@[id].content_length by {
            lemma_entries_lookup(self.entries@, id);
            let i = choose|i: int| 0 <= i < self.entries@.len() && self.entries@[i].0@ == id;
            assert(self@[id] == self.entries@[i].1@);
        }
    }

    /// A map with no request pending.
    pub fn new() -> (m: RequestMap)
        ensures
            m@ == Map::<Seq<char>, HttpRequestModel>::empty(),
            all_short(m@),
    {
        RequestMap { entries: Vec::new() }
    }

    /// How many requests are pending.
    pub fn len(&self) -> (n: usize)
        ensures
            n == self@.dom().len(),
            self@.dom().finite(),
    {
        proof {
            use_type_invariant(self);
            lemma_entries_count(self.entries@);
        }
        self.entries.len()
    }

    fn position(&self, req_id: &str) -> (r: Option<usize>)
        ensures
            match r {
                Some(i) => i < self.entries@.len() && self.entries@[i as int].0@ == req_id@,
                None => forall|i: int|
                    0 <= i < self.entries@.len() ==> self.entries@[i].0@ != req_id@,
            },
    {
        let mut i: usize = 0;
        while i < self.entries.len()
            invariant
                i <= self.entries@.len(),
                forall|j: int| 0 <= j < i ==> self.entries@[j].0@ != req_id@,
            decreases self.entries@.len() - i,
        {
            if same_text(self.entries[i].0.as_str(), req_id) {
                return Some(i);
            }
            i += 1;
        }
        None
    }

    /// How many bytes of the body of `req_id` have arrived, where it is
    /// pending.
    pub fn pending_len(&self, req_id: &str) -> (r: Option<usize>)
        ensures
            match r {
                Some(n) => self@.dom().contains(req_id@) && n == self@[req_id@].body.len(),
                None => !self@.dom().contains(req_id@),
            },
    {
        proof {
            use_type_invariant(self);
            lemma_entries_lookup(self.entries@, req_id@);
        }
        match self.position(req_id) {
            Some(i) => Some(self.entries[i].1.req_body.len()),
            None => None,
        }
    }

    fn discard(&mut self, req_id: &str) -> (r: Option<RequestState>)
        ensures
            final(self)@ == old(self)@.remove(req_id@),
            all_short(final(self)@),
            match r {
                Some(state) => old(self)@.dom().contains(req_id@) && state@ == old(self)@[req_id@],
                None => !old(self)@.dom().contains(req_id@),
            },
    {
        proof {
            use_type_invariant(&*self);
            lemma_entries_lookup(self.entries@, req_id@);
        }
        let found = match self.position(req_id) {
            Some(i) => {
                proof {
                    lemma_entries_remove(self.entries@, i as int);
                }
                let mut entries: Vec<(String, RequestState)> = Vec::new();
                core::mem::swap(&mut self.entries, &mut entries);
                let entry = entries.remove(i);
                core::mem::swap(&mut self.entries, &mut entries);
                Some(entry.1)
            },
            None => {
                assert(self@.remove(req_id@) =~= self@);
                None
            },
        };
        proof {
            use_type_invariant(&*self);
            self.lemma_pending_short();
        }
        found
    }

    fn store(&mut self, req_id: String, state: RequestState)
        requires
            !old(self)@.dom().contains(req_id@),
            state.req_body@.len() < state.content_length,
        ensures
            final(self)@ == old(self)@.insert(req_id@, state@),
            all_short(final(self)@),
    {
        proof {
            use_type_invariant(&*self);
            lemma_entries_lookup(self.entries@, req_id@);
        }
        let ghost before = self.entries@;
        let mut entries: Vec<(String, RequestState)> = Vec::new();
        core::mem::swap(&mut self.entries, &mut entries);
        entries.push((req_id, state));
        proof {
            assert(entries@.drop_last() =~= before);
        }
        core::mem::swap(&mut self.entries, &mut entries);
        proof {
            use_type_invariant(&*self);
            self.lemma_pending_short();
        }
    }

    /// Takes in the envelope of a request. Where a body is to follow the
    /// request is kept under its id, in place of any request that was pending
    /// under it; where none is, the request is complete and is handed back.
    pub fn accept_envelope(&mut self, request: IncomingHttpRequest) -> (r: Result<
        Option<RequestState>,
        AppServicesErrorCodes,
    >)
        ensures
            final(self)@ == after_envelope(old(self)@, request),
            all_short(final(self)@),
            assembled_view(r) == envelope_result(request),
    {
        proof {
            use_type_invariant(&*self);
            self.lemma_pending_short();
        }
        let length = match lookup_ignoring_case(&request.headers, "content-length") {
            None => 0usize,
            Some(text) => match parse_usize(text.as_str()) {
                Some(n) => n,
                None => {
                    return Err(AppServicesErrorCodes::ContentLengthParseError);
                },
            },
        };
        let _ = self.discard(request.req_id.as_str());
        let state = RequestState {
            uri: request.uri,
            req_headers: request.headers,
            req_method: request.method,
            req_body: Vec::new(),
            content_length: length,
        };
        if length == 0 {
            Ok(Some(state))
        } else {
            proof {
                assert(self@.insert(request.req_id@, state@) =~= old(self)@.insert(
                    request.req_id@,
                    state@,
                ));
            }
            self.store(request.req_id, state);
            Ok(None)
        }
    }

    /// Takes in one chunk of a body, sent on `subject`.
    pub fn accept_chunk(&mut self, subject: &str, chunk: &[u8]) -> (r: Result<
        Option<RequestState>,
        AppServicesErrorCodes,
    >)
        ensures
            final(self)@ == after_chunk(old(self)@, subject@, chunk@),
            all_short(final(self)@),
            assembled_view(r) == chunk_result(old(self)@, subject@, chunk@),
    {
        proof {
            use_type_invariant(&*self);
            self.lemma_pending_short();
        }
        let req_id = match extract_req_id_from_subject(subject) {
            Ok(id) => id,
            Err(e) => {
                return Err(e);
            },
        };
        match self.discard(req_id.as_str()) {
            None => Ok(None),
            Some(state) => {
                let mut state = state;
                let ghost before = state@;
                match handle_request_with_content(&mut state, chunk) {
                    Err(e) => Err(e),
                    Ok(true) => Ok(Some(state)),
                    Ok(false) => {
                        proof {
                            assert(self@.insert(req_id@, state@) =~= old(self)@.insert(
                                req_id@,
                                state@,
                            ));
                        }
                        self.store(req_id, state);
                        Ok(None)
                    },
                }
            },
        }
    }
}

proof fn lemma_entries_count(e: Seq<(String, RequestState)>)
    requires
        distinct_ids(e),
    ensures
        entries_map(e).dom().finite(),
        entries_map(e).dom().len() == e.len(),
    decreases e.len(),
{
    if e.len() > 0 {
        let head = e.drop_last();
        assert(distinct_ids(head));
        lemma_entries_count(head);
        lemma_entries_lookup(head, e.last().0@);
        if entries_map(head).dom().contains(e.last().0@) {
            let i = choose|i: int| 0 <= i < head.len() && head[i].0@ == e.last().0@;
            assert(e[i].0@ == e[e.len() - 1].0@);
        }
        assert(entries_map(e).dom() =~= entries_map(head).dom().insert(e.last().0@));
    }
}

/// Reads the request id off a subject of the tunnel: the fifth of its
/// dot-separated segments, where there are at least six.
pub fn extract_req_id_from_subject(subject: &str) -> (r: Result<String, AppServicesErrorCodes>)
    ensures
        match r {
            Ok(id) => req_id_of(subject@) == Some(id@),
            Err(e) => req_id_of(subject@).is_none() && e == AppServicesErrorCodes::ReqIdParseError,
        },
{
    let parts = split_on(subject, '.');
    if parts.len() >= 6 {
        assert(views(parts@)[4] == parts@[4]@);
        Ok(parts[4].clone())
    } else {
        Err(AppServicesErrorCodes::ReqIdParseError)
    }
}

/// Adds a chunk to the body of a pending request. Returns whether the body
/// has reached the announced length; a chunk that would take it past that
/// length is refused and the request left as it was.
pub fn handle_request_with_content(
    existing_request: &mut RequestState,
    new_data_chunks: &[u8],
) -> (r: Result<bool, AppServicesErrorCodes>)
    ensures
        ({
            let before = old(existing_request)@;
            let after = final(existing_request)@;
            match r {
                Ok(complete) => {
                    &&& before.body.len() + new_data_chunks@.len() <= before.content_length
                    &&& after == with_chunk(before, new_data_chunks@)
                    &&& complete == (after.body.len() == after.content_length)
                },
                Err(e) => {
                    &&& before.body.len() + new_data_chunks@.len() > before.content_length
                    &&& *final(existing_request) == *old(existing_request)
                    &&& e == AppServicesErrorCodes::OversizedBodyError
                },
            }
        }),
{
    let have = existing_request.req_body.len();
    if have > existing_request.content_length || new_data_chunks.len()
        > existing_request.content_length - have {
        return Err(AppServicesErrorCodes::OversizedBodyError);
    }
    append_bytes(&mut existing_request.req_body, new_data_chunks);
    Ok(existing_request.req_body.len() == existing_request.content_length)
}

/// The host and the port of the authority of a URI, where the text is a
/// URI: what `hyper::Uri` reads from it.
pub uninterp spec fn uri_authority(url: Seq<char>) -> Option<(Option<Seq<char>>, Option<u16>)>;

/// The host and port read from a URI.
pub struct Authority {
    pub host: Option<String>,
    pub port: Option<u16>,
}

/// The view of what parsing a URI gave.
pub open spec fn authority_view(a: Option<Authority>) -> Option<(Option<Seq<char>>, Option<u16>)> {
    match a {
        Some(found) => Some((opt_view(found.host), found.port)),
        None => None,
    }
}

/// Parses a text with `hyper::Uri`'s `FromStr` and reads the parsed value's
/// `host()` and `port_u16()`. Nothing is claimed of what they are, only
/// that the same text is always read the same way.
#[verifier::external_body]
fn parse_authority(url: &str) -> (r: Option<Authority>)
    ensures
        authority_view(r) == uri_authority(url@),
{
    match url.parse::<hyper::Uri>() {
        Ok(uri) => {
            let host = match uri.host() {
                Some(name) => Some(name.to_owned()),
                None => None,
            };
            Some(Authority { host, port: uri.port_u16() })
        },
        Err(_) => None,
    }
}

/// The URL under which the local server is asked for `uri`.
pub open spec fn local_url(local_port: u16, uri: Seq<char>) -> Seq<char> {
    "http://localhost:"@ + decimal_digits(local_port as nat) + uri
}

/// The address to connect to for an authority: its host, a colon, and its
/// port, 80 where it names none.
pub open spec fn host_addr(host: Seq<char>, port: Option<u16>) -> Seq<char> {
    host + ":"@ + decimal_digits(
        match port {
            Some(p) => p as nat,
            None => 80nat,
        },
    )
}

/// The request the local server is sent for a complete tunnelled request,
/// given what the URL's authority was read as. A URL that is no URI, or one
/// without a host, gives an error.
pub open spec fn local_request(
    local_port: u16,
    request: HttpRequestModel,
    authority: Option<(Option<Seq<char>>, Option<u16>)>,
) -> Result<LocalRequestModel, AppServicesErrorCodes> {
    match authority {
        Some((Some(host), port)) => Ok(
            LocalRequestModel {
                url: local_url(local_port, request.uri),
                remote_host_addr: host_addr(host, port),
                method: request.method,
                headers: request.headers,
                body: request.body,
            },
        ),
        _ => Err(AppServicesErrorCodes::UrlParseError),
    }
}

/// The view of an optional or failed local request.
pub open spec fn local_result_view(r: Result<LocalRequest, AppServicesErrorCodes>) -> Result<
    LocalRequestModel,
    AppServicesErrorCodes,
> {
    match r {
        Ok(request) => Ok(request@),
        Err(e) => Err(e),
    }
}

/// Builds the request for the local server from a complete tunnelled
/// request and from what the authority of its URL was read as.
pub fn local_request_for(local_port: u16, request: RequestState, authority: Option<Authority>) -> (r:
    Result<LocalRequest, AppServicesErrorCodes>)
    ensures
        local_result_view(r) == local_request(local_port, request@, authority_view(authority)),
{
    match authority {
        Some(Authority { host: Some(host), port }) => {
            let port_number: u16 = match port {
                Some(p) => p,
                None => 80,
            };
            let target = u16_to_decimal(port_number);
            let remote_host_addr = join3(host.as_str(), ":", target.as_str());
            let digits = u16_to_decimal(local_port);
            let url = join3("http://localhost:", digits.as_str(), request.uri.as_str());
            Ok(
                LocalRequest {
                    url,
                    remote_host_addr,
                    method: request.req_method,
                    headers: request.req_headers,
                    body: request.req_body,
                },
            )
        },
        _ => Err(AppServicesErrorCodes::UrlParseError),
    }
}

/// Turns a complete tunnelled request into the request for the server on
/// `local_port`.
pub fn handle_local_request(request: RequestState, local_port: u16) -> (r: Result<
    LocalRequest,
    AppServicesErrorCodes,
>)
    ensures
        local_result_view(r) == local_request(
            local_port,
            request@,
            uri_authority(local_url(local_port, request@.uri)),
        ),
{
    let digits = u16_to_decimal(local_port);
    let url = join3("http://localhost:", digits.as_str(), request.uri.as_str());
    let authority = parse_authority(url.as_str());
    local_request_for(local_port, request, authority)
}

/// The kinds of message that arrive on the tunnel's subjects.
#[derive(Clone, Copy, Debug, PartialEq, Eq, Structural)]
pub enum TunnelMessageKind {
    /// The envelope of a request: the subject ends in `.req`.
    Envelope,
    /// A chunk of a body: the subject ends in `.data`.
    Chunk,
    /// Anything else; it is passed over.
    Other,
}

/// The kind of message a subject announces.
pub open spec fn kind_of(subject: Seq<char>) -> TunnelMessageKind {
    if has_suffix(subject, ".req"@) {
        TunnelMessageKind::Envelope
    } else if has_suffix(subject, ".data"@) {
        TunnelMessageKind::Chunk
    } else {
        TunnelMessageKind::Other
    }
}

/// Tells the kind of a message by its subject.
pub fn message_kind(subject: &str) -> (kind: TunnelMessageKind)
    ensures
        kind == kind_of(subject@),
{
    if ends_with(subject, ".req") {
        TunnelMessageKind::Envelope
    } else if ends_with(subject, ".data") {
        TunnelMessageKind::Chunk
    } else {
        TunnelMessageKind::Other
    }
}

/// What a message on the tunnel gives, before the local request is built:
/// the complete request, nothing, or an error. An envelope whose payload
/// could not be decoded (`envelope` is `None`) is an error.
pub open spec fn message_result(
    pending: Map<Seq<char>, HttpRequestModel>,
    subject: Seq<char>,
    payload: Seq<u8>,
    envelope: Option<IncomingHttpRequest>,
) -> Assembled {
    match kind_of(subject) {
        TunnelMessageKind::Envelope => match envelope {
            Some(request) => envelope_result(request),
            None => Err(AppServicesErrorCodes::RequestPayloadParseError),
        },
        TunnelMessageKind::Chunk => chunk_result(pending, subject, payload),
        TunnelMessageKind::Other => Ok(None),
    }
}

/// The pending requests after a message on the tunnel.
pub open spec fn after_message(
    pending: Map<Seq<char>, HttpRequestModel>,
    subject: Seq<char>,
    payload: Seq<u8>,
    envelope: Option<IncomingHttpRequest>,
) -> Map<Seq<char>, HttpRequestModel> {
    match kind_of(subject) {
        TunnelMessageKind::Envelope => match envelope {
            Some(request) => after_envelope(pending, request),
            None => pending,
        },
        TunnelMessageKind::Chunk => after_chunk(pending, subject, payload),
        TunnelMessageKind::Other => pending,
    }
}

/// What is to be sent to the local server after a message: the local
/// request for a request the message completed, nothing where it completed
/// none, the error otherwise.
pub open spec fn dispatch_of(local_port: u16, assembled: Assembled) -> Result<
    Option<LocalRequestModel>,
    AppServicesErrorCodes,
> {
    match assembled {
        Err(e) => Err(e),
        Ok(None) => Ok(None),
        Ok(Some(request)) => match local_request(
            local_port,
            request,
            uri_authority(local_url(local_port, request.uri)),
        ) {
            Ok(local) => Ok(Some(local)),
            Err(e) => Err(e),
        },
    }
}

/// The view of what processing a message returned.
pub open spec fn dispatch_view(r: Result<Option<LocalRequest>, AppServicesErrorCodes>) -> Result<
    Option<LocalRequestModel>,
    AppServicesErrorCodes,
> {
    match r {
        Ok(Some(local)) => Ok(Some(local@)),
        Ok(None) => Ok(None),
        Err(e) => Err(e),
    }
}

/// Handles one message of the tunnel. `envelope` is the decoded payload of
/// a message whose subject ends in `.req`, `None` where it could not be
/// decoded; for other subjects it is not looked at. Returns the request to
/// send to the server on `local_port`, if the message completed one.
pub fn process_message(
    pending: &mut RequestMap,
    local_port: u16,
    subject: &str,
    payload: &[u8],
    envelope: Option<IncomingHttpRequest>,
) -> (r: Result<Option<LocalRequest>, AppServicesErrorCodes>)
    ensures
        final(pending)@ == after_message(old(pending)@, subject@, payload@, envelope),
        all_short(final(pending)@),
        dispatch_view(r) == dispatch_of(
            local_port,
            message_result(old(pending)@, subject@, payload@, envelope),
        ),
{
    proof {
        use_type_invariant(&*pending);
        pending.lemma_pending_short();
    }
    let assembled = match message_kind(subject) {
        TunnelMessageKind::Envelope => match envelope {
            Some(request) => pending.accept_envelope(request),
            None => Err(AppServicesErrorCodes::RequestPayloadParseError),
        },
        TunnelMessageKind::Chunk => pending.accept_chunk(subject, payload),
        TunnelMessageKind::Other => Ok(None),
    };
    match assembled {
        Err(e) => Err(e),
        Ok(None) => Ok(None),
        Ok(Some(request)) => match handle_local_request(request, local_port) {
            Ok(local) => Ok(Some(local)),
            Err(e) => Err(e),
        },
    }
}

/// The subject an answer goes to: the value of the first `Ack-To` header
/// of the message. A message without that header, with other headers or
/// with none at all, names no subject: `AckHeaderNotFoundError`.
pub open spec fn ack_subject_of(headers: Option<Seq<(Seq<char>, Seq<char>)>>) -> Result<
    Seq<char>,
    AppServicesErrorCodes,
> {
    match headers {
        None => Err(AppServicesErrorCodes::AckHeaderNotFoundError),
        Some(pairs) => match value_of(pairs, "Ack-To"@) {
            Some(subject) => Ok(subject),
            None => Err(AppServicesErrorCodes::AckHeaderNotFoundError),
        },
    }
}

/// The views of optional message headers.
pub open spec fn opt_pair_views(headers: Option<&Vec<(String, String)>>) -> Option<
    Seq<(Seq<char>, Seq<char>)>,
> {
    match headers {
        Some(pairs) => Some(pair_views(pairs@)),
        None => None,
    }
}

/// A message that carries no `Ack-To` header names no subject for the
/// answer, whether it carries other headers or none.
pub proof fn lemma_absent_ack_header(headers: Option<Seq<(Seq<char>, Seq<char>)>>)
    requires
        headers matches Some(pairs) ==> value_of(pairs, "Ack-To"@) is None,
    ensures
        ack_subject_of(headers) == Err::<Seq<char>, AppServicesErrorCodes>(
            AppServicesErrorCodes::AckHeaderNotFoundError,
        ),
{
}

/// Reads the subject for the answer from the `Ack-To` header of a message.
pub fn extract_ack_subject(headers: Option<&Vec<(String, String)>>) -> (r: Result<
    String,
    AppServicesErrorCodes,
>)
    ensures
        match r {
            Ok(subject) => ack_subject_of(opt_pair_views(headers)) == Ok::<
                Seq<char>,
                AppServicesErrorCodes,
            >(subject@),
            Err(e) => ack_subject_of(opt_pair_views(headers)) == Err::<
                Seq<char>,
                AppServicesErrorCodes,
            >(e),
        },
{
    match headers {
        None => Err(AppServicesErrorCodes::AckHeaderNotFoundError),
        Some(pairs) => match lookup(pairs, "Ack-To") {
            Some(subject) => Ok(subject),
            None => Err(AppServicesErrorCodes::AckHeaderNotFoundError),
        },
    }
}

/// Addresses the answer of the local server: it goes to the subject the
/// message named in `Ack-To`; where that subject is empty nothing is sent;
/// where the header is missing the answer is dropped with an error.
pub fn ack_reply(headers: Option<&Vec<(String, String)>>, response: ResponseBody) -> (r: Result<
    Option<AckReply>,
    AppServicesErrorCodes,
>)
    ensures
        match r {
            Ok(Some(reply)) => ack_subject_of(opt_pair_views(headers)) == Ok::<
                Seq<char>,
                AppServicesErrorCodes,
            >(reply.subject@) && reply.subject@.len() > 0 && reply.response == response,
            Ok(None) => ack_subject_of(opt_pair_views(headers)) == Ok::<
                Seq<char>,
                AppServicesErrorCodes,
            >(Seq::<char>::empty()),
            Err(e) => ack_subject_of(opt_pair_views(headers)) == Err::<
                Seq<char>,
                AppServicesErrorCodes,
            >(e),
        },
{
    match extract_ack_subject(headers) {
        Err(e) => Err(e),
        Ok(subject) => {
            if subject.as_str().unicode_len() == 0 {
                assert(subject@ =~= Seq::<char>::empty());
                Ok(None)
            } else {
                Ok(Some(AckReply { subject, response }))
            }
        },
    }
}

/// The subject on which everything for `dns_name` arrives.
pub open spec fn gateway_subject(dns_name: Seq<char>) -> Seq<char> {
    "app_services.gateway."@ + sha256_hex(dns_name) + ".>"@
}

/// The subjects to subscribe to for the service reached under `dns_name`:
/// one filter, under which every subject of the tunnel for that name falls,
/// each with its request id where it is read from.
pub fn subscribe_to_nats(dns_name: &str) -> (subjects: Vec<AppServicesSubjects>)
    ensures
        subjects@.len() == 1,
        subjects@[0] matches AppServicesSubjects::Request(s) && s@ == gateway_subject(dns_name@),
        forall|port: Seq<char>, req_id: Seq<char>, kind: Seq<char>|
            is_segment(port) && is_segment(req_id) && is_segment(kind) ==> {
                let subject = #[trigger] tunnel_subject(
                    sha256_hex(dns_name@),
                    port,
                    req_id,
                    kind,
                );
                &&& covers(gateway_subject(dns_name@), subject)
                &&& req_id_of(subject) == Some(req_id)
            },
{
    let hash = digest(dns_name);
    let subject = join3("app_services.gateway.", hash.as_str(), ".>");
    let mut subjects: Vec<AppServicesSubjects> = Vec::new();
    subjects.push(AppServicesSubjects::Request(subject));
    proof {
        assert forall|i: int| 0 <= i < hash@.len() implies hash@[i] != '.' by {
            assert(is_lower_hex(hash@[i]));
        }
        assert(is_segment(hash@));
        assert forall|port: Seq<char>, req_id: Seq<char>, kind: Seq<char>|
            is_segment(port) && is_segment(req_id) && is_segment(kind) implies {
            let subject = #[trigger] tunnel_subject(sha256_hex(dns_name@), port, req_id, kind);
            &&& covers(gateway_subject(dns_name@), subject)
            &&& req_id_of(subject) == Some(req_id)
        } by {
            lemma_req_id_of_tunnel_subject(hash@, port, req_id, kind);
            lemma_gateway_covers(hash@, port, req_id, kind);
        }
    }
    subjects
}

/// What a pull consumer for the tunnel is created with.
#[derive(Clone, Debug, PartialEq, Eq)]
pub struct PullConsumerConfig {
    pub stream_name: String,
    pub consumer_name: String,
    pub filter_subject: String,
}

/// The configuration of a pull consumer on the stream `app_services` that
/// takes everything for `dns_name`, under the name given.
pub fn create_pull_consumer(dns_name: &str, consumer_name: String) -> (config: PullConsumerConfig)
    ensures
        config.stream_name@ == "app_services"@,
        config.consumer_name == consumer_name,
        config.filter_subject@ == gateway_subject(dns_name@),
{
    let hash = digest(dns_name);
    PullConsumerConfig {
        stream_name: "app_services".to_owned(),
        consumer_name,
        filter_subject: join3("app_services.gateway.", hash.as_str(), ".>"),
    }
}

/// The key under which the DNS name of an application is kept in the
/// settings.
pub open spec fn dns_name_key(app_id: Seq<char>) -> Seq<char> {
    "app_services."@ + app_id + ".dns_name"@
}

/// Whether the messaging session is to be set up again for a DNS name:
/// unless the settings held so far already name it for this application.
pub open spec fn needs_reconnect(
    existing_settings: Seq<(Seq<char>, Seq<char>)>,
    app_id: Seq<char>,
    dns_name: Seq<char>,
) -> bool {
    value_of(existing_settings, dns_name_key(app_id)) != Some(dns_name)
}

/// Decides whether a new DNS name calls for a new messaging session.
pub fn reconnect_messaging_service(
    new_setting: &str,
    app_id: &str,
    existing_settings: &Vec<(String, String)>,
) -> (reconnect: bool)
    ensures
        reconnect == needs_reconnect(pair_views(existing_settings@), app_id@, new_setting@),
{
    let key = join3("app_services.", app_id, ".dns_name");
    match lookup(existing_settings, key.as_str()) {
        Some(current) => !same_text(current.as_str(), new_setting),
        None => true,
    }
}

/// The chunks of a body put one after the other.
pub open spec fn concat(chunks: Seq<Seq<u8>>) -> Seq<u8>
    decreases chunks.len(),
{
    if chunks.len() == 0 {
        Seq::<u8>::empty()
    } else {
        concat(chunks.drop_last()) + chunks.last()
    }
}

/// The pending requests after a run of chunks on one subject, in the order
/// in which they arrived.
pub open spec fn after_chunks(
    pending: Map<Seq<char>, HttpRequestModel>,
    subject: Seq<char>,
    chunks: Seq<Seq<u8>>,
) -> Map<Seq<char>, HttpRequestModel>
    decreases chunks.len(),
{
    if chunks.len() == 0 {
        pending
    } else {
        after_chunk(after_chunks(pending, subject, chunks.drop_last()), subject, chunks.last())
    }
}

/// While the chunks that arrived stay short of the announced length, the
/// pending request holds exactly those chunks, in order, after what it held
/// before.
pub proof fn lemma_chunks_accumulate(
    pending: Map<Seq<char>, HttpRequestModel>,
    subject: Seq<char>,
    chunks: Seq<Seq<u8>>,
)
    requires
        req_id_of(subject).is_some(),
        pending.dom().contains(req_id_of(subject).unwrap()),
        forall|k: int|
            0 <= k <= chunks.len() ==> pending[req_id_of(subject).unwrap()].body.len() + (
            #[trigger] concat(chunks.take(k))).len() < pending[req_id_of(
                subject,
            ).unwrap()].content_length,
    ensures
        after_chunks(pending, subject, chunks).dom().contains(req_id_of(subject).unwrap()),
        after_chunks(pending, subject, chunks)[req_id_of(subject).unwrap()] == with_chunk(
            pending[req_id_of(subject).unwrap()],
            concat(chunks),
        ),
        forall|k: int|
            0 <= k < chunks.len() ==> #[trigger] chunk_result(
                after_chunks(pending, subject, chunks.take(k)),
                subject,
                chunks[k],
            ) == Ok::<Option<HttpRequestModel>, AppServicesErrorCodes>(None),
    decreases chunks.len(),
{
    let id = req_id_of(subject).unwrap();
    if chunks.len() == 0 {
        assert(pending[id].body + concat(chunks) =~= pending[id].body);
    } else {
        let head = chunks.drop_last();
        assert forall|k: int| 0 <= k <= head.len() implies pending[id].body.len() + (
        #[trigger] concat(head.take(k))).len() < pending[id].content_length by {
            assert(head.take(k) =~= chunks.take(k));
        }
        lemma_chunks_accumulate(pending, subject, head);
        let mid = after_chunks(pending, subject, head);
        assert(chunks.take(chunks.len() as int) =~= chunks);
        assert(head =~= chunks.take(chunks.len() - 1));
        assert(concat(chunks.take(chunks.len() as int)).len() == concat(head).len()
            + chunks.last().len());
        assert((pending[id].body + concat(head)) + chunks.last() =~= pending[id].body + concat(
            chunks,
        ));
        assert forall|k: int| 0 <= k < chunks.len() implies #[trigger] chunk_result(
            after_chunks(pending, subject, chunks.take(k)),
            subject,
            chunks[k],
        ) == Ok::<Option<HttpRequestModel>, AppServicesErrorCodes>(None) by {
            if k < head.len() {
                assert(head.take(k) =~= chunks.take(k));
                assert(head[k] == chunks[k]);
            }
        }
    }
}

/// A request whose body arrives in chunks is handed on when the last
/// chunk brings it to the announced length, and then its body is the chunks
/// in the order of their arrival, as long as announced; until then nothing
/// is handed on, and afterwards the request is pending no more.
pub proof fn lemma_reassembly(
    pending: Map<Seq<char>, HttpRequestModel>,
    subject: Seq<char>,
    chunks: Seq<Seq<u8>>,
)
    requires
        req_id_of(subject).is_some(),
        pending.dom().contains(req_id_of(subject).unwrap()),
        pending[req_id_of(subject).unwrap()].body.len() == 0,
        chunks.len() > 0,
        concat(chunks).len() == pending[req_id_of(subject).unwrap()].content_length,
        forall|k: int|
            0 <= k < chunks.len() ==> (#[trigger] concat(chunks.take(k))).len() < pending[req_id_of(
                subject,
            ).unwrap()].content_length,
    ensures
        forall|k: int|
            0 <= k < chunks.len() - 1 ==> #[trigger] chunk_result(
                after_chunks(pending, subject, chunks.take(k)),
                subject,
                chunks[k],
            ) == Ok::<Option<HttpRequestModel>, AppServicesErrorCodes>(None),
        chunk_result(
            after_chunks(pending, subject, chunks.drop_last()),
            subject,
            chunks.last(),
        ) == Ok::<Option<HttpRequestModel>, AppServicesErrorCodes>(
            Some(
                HttpRequestModel { body: concat(chunks), ..pending[req_id_of(subject).unwrap()] },
            ),
        ),
        concat(chunks).len() == pending[req_id_of(subject).unwrap()].content_length,
        !after_chunks(pending, subject, chunks).dom().contains(req_id_of(subject).unwrap()),
{
    let id = req_id_of(subject).unwrap();
    let head = chunks.drop_last();
    assert forall|k: int| 0 <= k <= head.len() implies pending[id].body.len() + (
    #[trigger] concat(head.take(k))).len() < pending[id].content_length by {
        assert(head.take(k) =~= chunks.take(k));
    }
    lemma_chunks_accumulate(pending, subject, head);
    assert(pending[id].body =~= Seq::<u8>::empty());
    assert((pending[id].body + concat(head)) + chunks.last() =~= concat(chunks));
    assert forall|k: int| 0 <= k < chunks.len() - 1 implies #[trigger] chunk_result(
        after_chunks(pending, subject, chunks.take(k)),
        subject,
        chunks[k],
    ) == Ok::<Option<HttpRequestModel>, AppServicesErrorCodes>(None) by {
        assert(head.take(k) =~= chunks.take(k));
        assert(head[k] == chunks[k]);
    }
}

/// A segment of a subject: a text without a dot.
pub open spec fn is_segment(s: Seq<char>) -> bool {
    forall|i: int| 0 <= i < s.len() ==> s[i] != '.'
}

/// A subject of the tunnel: the gateway's prefix, then the digest of the
/// DNS name, the port, the request id, and the kind of message.
pub open spec fn tunnel_subject(
    dns_hash: Seq<char>,
    port: Seq<char>,
    req_id: Seq<char>,
    kind: Seq<char>,
) -> Seq<char> {
    "app_services"@.push('.') + ("gateway"@.push('.') + (dns_hash.push('.') + (port.push('.') + (
    req_id.push('.') + kind))))
}

/// The request id that is read off a subject of the tunnel is the one the
/// subject was made with, whatever the digest, the port and the kind are,
/// as long as none of them holds a dot.
pub proof fn lemma_req_id_of_tunnel_subject(
    dns_hash: Seq<char>,
    port: Seq<char>,
    req_id: Seq<char>,
    kind: Seq<char>,
)
    requires
        is_segment(dns_hash),
        is_segment(port),
        is_segment(req_id),
        is_segment(kind),
    ensures
        req_id_of(tunnel_subject(dns_hash, port, req_id, kind)) == Some(req_id),
{
    reveal_strlit("app_services");
    reveal_strlit("gateway");
    let tail4 = req_id.push('.') + kind;
    let tail3 = port.push('.') + tail4;
    let tail2 = dns_hash.push('.') + tail3;
    let tail1 = "gateway"@.push('.') + tail2;
    lemma_split_whole("app_services"@, '.');
    lemma_split_whole("gateway"@, '.');
    lemma_split_whole(dns_hash, '.');
    lemma_split_whole(port, '.');
    lemma_split_whole(req_id, '.');
    lemma_split_whole(kind, '.');
    lemma_split_joined(req_id, kind, '.');
    lemma_split_joined(port, tail4, '.');
    lemma_split_joined(dns_hash, tail3, '.');
    lemma_split_joined("gateway"@, tail2, '.');
    lemma_split_joined("app_services"@, tail1, '.');
    let parts = split(tunnel_subject(dns_hash, port, req_id, kind), '.');
    assert(parts =~= seq!["app_services"@, "gateway"@, dns_hash, port, req_id, kind]);
}

/// A subject falls under a filter that ends in `>`: it begins with what
/// stands before the `>`, and goes on after it.
pub open spec fn covers(filter: Seq<char>, subject: Seq<char>) -> bool {
    &&& filter.len() > 0
    &&& filter.last() == '>'
    &&& subject.len() > filter.len() - 1
    &&& subject.take(filter.len() - 1) == filter.drop_last()
}

/// Every subject of the tunnel falls under the filter the gateway
/// subscribes with for the same digest.
pub proof fn lemma_gateway_covers(
    dns_hash: Seq<char>,
    port: Seq<char>,
    req_id: Seq<char>,
    kind: Seq<char>,
)
    ensures
        covers(
            "app_services.gateway."@ + dns_hash + ".>"@,
            tunnel_subject(dns_hash, port, req_id, kind),
        ),
{
    reveal_strlit("app_services.gateway.");
    reveal_strlit("app_services");
    reveal_strlit("gateway");
    reveal_strlit(".>");
    let prefix = "app_services.gateway."@;
    let filter = prefix + dns_hash + ".>"@;
    let rest = port.push('.') + (req_id.push('.') + kind);
    let subject = tunnel_subject(dns_hash, port, req_id, kind);
    assert("app_services"@.push('.') + "gateway"@.push('.') =~= prefix);
    assert(filter.drop_last() =~= prefix + dns_hash.push('.'));
    assert(subject =~= (prefix + dns_hash.push('.')) + rest);
    assert(subject.take(filter.len() - 1) =~= filter.drop_last());
}

/// A message for another request leaves a pending request as it was.
pub proof fn lemma_other_requests_untouched(
    pending: Map<Seq<char>, HttpRequestModel>,
    subject: Seq<char>,
    payload: Seq<u8>,
    envelope: Option<IncomingHttpRequest>,
    id: Seq<char>,
)
    requires
        pending.dom().contains(id),
        kind_of(subject) == TunnelMessageKind::Chunk ==> req_id_of(subject) != Some(id),
        kind_of(subject) == TunnelMessageKind::Envelope && envelope.is_some()
            ==> envelope.unwrap().req_id@ != id,
    ensures
        after_message(pending, subject, payload, envelope).dom().contains(id),
        after_message(pending, subject, payload, envelope)[id] == pending[id],
{
}

/// An envelope that announces no body is complete at once: the request is
/// handed on without waiting for a chunk, and nothing stays pending for it.
pub proof fn lemma_empty_body_dispatches(
    pending: Map<Seq<char>, HttpRequestModel>,
    request: IncomingHttpRequest,
)
    requires
        declared_length(pair_views(request.headers@)) == Some(0usize),
    ensures
        envelope_result(request) == Ok::<Option<HttpRequestModel>, AppServicesErrorCodes>(
            Some(opened(request, 0)),
        ),
        !after_envelope(pending, request).dom().contains(request.req_id@),
{
}

/// A step of the assembly keeps every pending body short of its length.
pub proof fn lemma_steps_keep_short(
    pending: Map<Seq<char>, HttpRequestModel>,
    subject: Seq<char>,
    payload: Seq<u8>,
    envelope: Option<IncomingHttpRequest>,
)
    requires
        all_short(pending),
    ensures
        all_short(after_message(pending, subject, payload, envelope)),
{
}

} // verus!
