//! The HTTP protocol pieces that are pure computation: resource attributes,
//! inbound request triage, and byte-exact upstream request construction.
//! The socket work around them lives outside the library.

use vstd::prelude::*;
use crate::command::{res_view, Command, CommandResult};
use crate::device::{Device, DeviceEndpoint, DeviceResource, DeviceResourceAttributes};
use crate::error::RouterError;
use crate::text::append_str;

verus! {

/// Addressing attributes of one HTTP resource: a path, a method, and
/// optional extra request headers.
#[derive(Debug)]
pub struct HttpResourceAttributes {
    /// Path of the resource on the upstream server.
    pub slug: String,
    /// HTTP method the resource is driven with.
    pub method: String,
    /// Extra headers sent with every request to this resource.
    pub headers: Option<Vec<(String, String)>>,
}

impl DeviceResourceAttributes for HttpResourceAttributes {

}

/// Failure of inbound request triage.
#[derive(Debug, Clone, Copy, PartialEq, Eq, Structural)]
pub enum HttpError {
    /// The inbound bytes hold only a prefix of an HTTP request.
    IncompleteRequest,
    /// The inbound bytes are not an HTTP request at all.
    MalformedRequest,
}

impl HttpError {
    /// The human-readable description of this error.
    pub open spec fn spec_message(self) -> Seq<char> {
        match self {
            HttpError::IncompleteRequest => "Incomplete HTTP request"@,
            HttpError::MalformedRequest => "Malformed HTTP request"@,
        }
    }

    /// A human-readable description of this error.
    pub fn message(&self) -> (r: String)
        ensures
            r@ == self.spec_message(),
    {
        match self {
            HttpError::IncompleteRequest => "Incomplete HTTP request".to_owned(),
            HttpError::MalformedRequest => "Malformed HTTP request".to_owned(),
        }
    }
}

/// One `Key: Value` header line, terminated as the wire wants it.
pub open spec fn spec_header_line(k: Seq<char>, v: Seq<char>) -> Seq<char> {
    k + ": "@ + v + "\r\n"@
}

/// The header lines of a header list, in order.
pub open spec fn spec_header_lines(hs: Seq<(String, String)>) -> Seq<char>
    decreases hs.len(),
{
    if hs.len() == 0 {
        Seq::empty()
    } else {
        spec_header_line(hs[0].0@, hs[0].1@) + spec_header_lines(hs.drop_first())
    }
}

/// The header lines of an optional header list; absent means none.
pub open spec fn spec_opt_header_lines(h: Option<Vec<(String, String)>>) -> Seq<char> {
    match h {
        Option::None => Seq::empty(),
        Option::Some(v) => spec_header_lines(v@),
    }
}

/// The exact upstream request sent for one resource: request line, host
/// header, the resource's extra headers, and a closing connection header.
pub open spec fn spec_http_request(endpoint: Seq<char>, attrs: HttpResourceAttributes) -> Seq<
    char,
> {
    attrs.method@ + " "@ + attrs.slug@ + " HTTP/1.1\r\nHost: "@ + endpoint + "\r\n"@
        + spec_opt_header_lines(attrs.headers) + "Connection: close\r\n\r\n"@
}

/// Header lines of a concatenation are the concatenated header lines.
proof fn lemma_header_lines_concat(a: Seq<(String, String)>, b: Seq<(String, String)>)
    ensures
        spec_header_lines(a + b) == spec_header_lines(a) + spec_header_lines(b),
    decreases a.len(),
{
    if a.len() == 0 {
        assert(a + b =~= b);
        assert(spec_header_lines(a) + spec_header_lines(b) =~= spec_header_lines(b));
    } else {
        assert((a + b).drop_first() =~= a.drop_first() + b);
        assert((a + b)[0] == a[0]);
        lemma_header_lines_concat(a.drop_first(), b);
        assert(spec_header_lines(a + b) =~= spec_header_lines(a) + spec_header_lines(b));
    }
}

/// Build the upstream HTTP request for one resource, byte for byte.
pub fn build_request(endpoint: &str, attrs: &HttpResourceAttributes) -> (r: String)
    ensures
        r@ == spec_http_request(endpoint@, *attrs),
{
    let mut out = String::new();
    append_str(&mut out, attrs.method.as_str());
    append_str(&mut out, " ");
    append_str(&mut out, attrs.slug.as_str());
    append_str(&mut out, " HTTP/1.1\r\nHost: ");
    append_str(&mut out, endpoint);
    append_str(&mut out, "\r\n");
    match &attrs.headers {
        Option::None => {},
        Option::Some(hs) => {
            let ghost base = out@;
            proof {
                assert(base + spec_header_lines(hs@.take(0)) =~= base);
            }
            let n = hs.len();
            let mut i: usize = 0;
            while i < n
                invariant
                    n == hs.len(),
                    i <= n,
                    out@ == base + spec_header_lines(hs@.take(i as int)),
                decreases n - i,
            {
                let ghost pre = out@;
                append_str(&mut out, hs[i].0.as_str());
                append_str(&mut out, ": ");
                append_str(&mut out, hs[i].1.as_str());
                append_str(&mut out, "\r\n");
                proof {
                    let entry = hs@[i as int];
                    assert(out@ =~= pre + spec_header_line(entry.0@, entry.1@));
                    let single = seq![entry];
                    assert(single[0] == entry);
                    assert(single.drop_first() =~= Seq::<(String, String)>::empty());
                    assert(spec_header_lines(single.drop_first()) == Seq::<char>::empty());
                    assert(spec_header_lines(single) =~= spec_header_line(entry.0@, entry.1@));
                    assert(hs@.take(i as int + 1) =~= hs@.take(i as int) + seq![entry]);
                    lemma_header_lines_concat(hs@.take(i as int), seq![entry]);
                    assert(out@ =~= base + spec_header_lines(hs@.take(i as int + 1)));
                }
                i += 1;
            }
            proof {
                assert(hs@.take(n as int) =~= hs@);
            }
        },
    }
    append_str(&mut out, "Connection: close\r\n\r\n");
    proof {
        assert(out@ =~= spec_http_request(endpoint@, *attrs));
    }
    out
}

/// What the HTTP parser decides about a byte buffer: `Some(true)` for a
/// complete request, `Some(false)` for a partial one, `None` for a
/// malformed one. The decision depends on the bytes alone.
pub uninterp spec fn http_parse_status(bytes: Seq<u8>) -> Option<bool>;

/// Relies on `httparse::Request::parse` with sixteen header slots: a pure
/// decision over the buffer, reporting a complete request, a partial one,
/// or a parse error.
#[verifier::external_body]
fn parse_request(buffer: &[u8]) -> (r: Option<bool>)
    ensures
        r == http_parse_status(buffer@),
{
    let mut headers = [httparse::EMPTY_HEADER; 16];
    let mut req = httparse::Request::new(&mut headers);
    match req.parse(buffer) {
        Ok(httparse::Status::Complete(_)) => Some(true),
        Ok(httparse::Status::Partial) => Some(false),
        Err(_) => None,
    }
}

/// Triage one inbound request and, when it is complete, produce the exact
/// upstream request to send for the addressed resource. An incomplete or
/// malformed inbound request produces an error and no upstream request.
pub fn send_request(inbound: &[u8], endpoint: &str, attrs: &HttpResourceAttributes) -> (r: Result<
    String,
    HttpError,
>)
    ensures
        match http_parse_status(inbound@) {
            Option::Some(true) => r matches Result::Ok(s) && s@ == spec_http_request(
                endpoint@,
                *attrs,
            ),
            Option::Some(false) => r == Result::<String, HttpError>::Err(
                HttpError::IncompleteRequest,
            ),
            Option::None => r == Result::<String, HttpError>::Err(HttpError::MalformedRequest),
        },
{
    match parse_request(inbound) {
        Option::Some(true) => Result::Ok(build_request(endpoint, attrs)),
        Option::Some(false) => Result::Err(HttpError::IncompleteRequest),
        Option::None => Result::Err(HttpError::MalformedRequest),
    }
}

/// The device-bound computation of the HTTP driver: resolving a command to
/// the URL and resource it addresses, and shaping execution outcomes into
/// command results. The socket exchange itself happens outside the library.
#[derive(Debug)]
pub struct HttpDriver {
    /// The device this driver serves; its endpoint is an HTTP endpoint.
    pub dvc: Device<HttpResourceAttributes>,
}

impl HttpDriver {
    /// Resolve a command against the device: the URL to contact and the
    /// resource whose attributes shape the upstream request, or the failure
    /// result reported when the device lacks the named resource.
    pub fn prepare<'a>(&'a self, command: &Command) -> (r: Result<
        (&'a String, &'a DeviceResource<HttpResourceAttributes>),
        CommandResult,
    >)
        requires
            self.dvc.wf(),
            self.dvc.endpoint is Http,
        ensures
            match r {
                Result::Ok(p) => self.dvc.spec_has_resource(command.resource@) && *p.1
                    == self.dvc.spec_resource(command.resource@) && (self.dvc.endpoint matches
                DeviceEndpoint::Http { url } && p.0@ == url@),
                Result::Err(cr) => !self.dvc.spec_has_resource(command.resource@) && cr@.command_id
                    == command@.id && cr@.device_id == self.dvc.id@ && cr@.res == Result::<
                    Option<Seq<u8>>,
                    Seq<char>,
                >::Err("Resource "@ + command.resource@ + " not found"@),
            },
    {
        match self.dvc.find_resource(&command.resource) {
            Option::Some(res) => {
                let url = match &self.dvc.endpoint {
                    DeviceEndpoint::Http { url } => url,
                    _ => vstd::pervasive::unreached(),
                };
                Result::Ok((url, res))
            },
            Option::None => {
                let mut msg = String::new();
                append_str(&mut msg, "Resource ");
                append_str(&mut msg, command.resource.as_str());
                append_str(&mut msg, " not found");
                proof {
                    assert(msg@ =~= "Resource "@ + command.resource@ + " not found"@);
                }
                Result::Err(
                    CommandResult {
                        command_id: command.id.clone(),
                        device_id: self.dvc.id.clone(),
                        res: Result::Err(msg),
                    },
                )
            },
        }
    }

    /// Shape an upstream outcome into the result reported for a command.
    pub fn finish(&self, command: &Command, outcome: Result<Option<Vec<u8>>, String>) -> (r:
        CommandResult)
        ensures
            r@.command_id == command@.id,
            r@.device_id == self.dvc.id@,
            r@.res == res_view(outcome),
    {
        CommandResult {
            command_id: command.id.clone(),
            device_id: self.dvc.id.clone(),
            res: outcome,
        }
    }

    /// Begin listening: the HTTP driver needs no initialization.
    pub fn start(&self) -> (r: Result<(), RouterError>)
        ensures
            r == Result::<(), RouterError>::Ok(()),
    {
        Result::Ok(())
    }

    /// Stop listening: the HTTP driver holds no listening resources.
    pub fn stop(&self) -> (r: Result<(), RouterError>)
        ensures
            r == Result::<(), RouterError>::Ok(()),
    {
        Result::Ok(())
    }
}

} // verus!
