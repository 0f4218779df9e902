use vstd::prelude::*;

use crate::error::Error;
use crate::response_handler::ResponseHandler;

verus! {

/// The building state of the client: options may still be set, and the
/// transfer cannot yet be submitted.
pub struct Build;

/// The finalized state of the client: no option may be set any more, and
/// the transfer may be submitted.
pub struct Perform;

/// A secure-transport protocol version, as the engine names them.
#[derive(Clone, Copy, PartialEq, Eq, Structural, Debug)]
pub enum SslVersion {
    Default,
    Tlsv1,
    Sslv2,
    Sslv3,
    Tlsv10,
    Tlsv11,
    Tlsv12,
    Tlsv13,
}

/// Everything a transfer description records before submission, as plain
/// values; applying them to the engine's transfer handle is the submitting
/// side's concern.
pub struct TransferOptions {
    pub verbose: bool,
    pub show_header: bool,
    pub progress: bool,
    pub signal: bool,
    pub fail_on_error: bool,
    pub url: Option<String>,
    pub port: Option<u16>,
    pub timeout_millis: Option<u64>,
    pub low_speed_limit: Option<u32>,
    pub low_speed_time_millis: Option<u64>,
    pub max_send_speed: Option<u64>,
    pub max_recv_speed: Option<u64>,
    pub get: bool,
    pub post: bool,
    pub put: bool,
    pub nobody: bool,
    pub follow_location: bool,
    pub max_redirections: Option<u32>,
    pub useragent: Option<String>,
    pub custom_request: Option<String>,
    pub accept_encoding: Option<String>,
    pub post_fields: Option<Vec<u8>>,
    pub http_headers: Vec<String>,
    pub username: Option<String>,
    pub password: Option<String>,
    pub proxy: Option<String>,
    pub proxy_port: Option<u16>,
    pub noproxy: Option<String>,
    pub tcp_nodelay: bool,
    pub buffer_size: Option<usize>,
    pub ssl_version: Option<SslVersion>,
    pub ssl_min_version: Option<SslVersion>,
    pub ssl_max_version: Option<SslVersion>,
    pub proxy_ssl_min_version: Option<SslVersion>,
    pub proxy_ssl_max_version: Option<SslVersion>,
}

/// A fresh description: every flag off, every option unset, no headers.
pub open spec fn is_default_options(o: TransferOptions) -> bool {
    &&& !o.verbose
    &&& !o.show_header
    &&& !o.progress
    &&& !o.signal
    &&& !o.fail_on_error
    &&& o.url is None
    &&& o.port is None
    &&& o.timeout_millis is None
    &&& o.low_speed_limit is None
    &&& o.low_speed_time_millis is None
    &&& o.max_send_speed is None
    &&& o.max_recv_speed is None
    &&& !o.get
    &&& !o.post
    &&& !o.put
    &&& !o.nobody
    &&& !o.follow_location
    &&& o.max_redirections is None
    &&& o.useragent is None
    &&& o.custom_request is None
    &&& o.accept_encoding is None
    &&& o.post_fields is None
    &&& o.http_headers@ == Seq::<String>::empty()
    &&& o.username is None
    &&& o.password is None
    &&& o.proxy is None
    &&& o.proxy_port is None
    &&& o.noproxy is None
    &&& !o.tcp_nodelay
    &&& o.buffer_size is None
    &&& o.ssl_version is None
    &&& o.ssl_min_version is None
    &&& o.ssl_max_version is None
    &&& o.proxy_ssl_min_version is None
    &&& o.proxy_ssl_max_version is None
}

impl TransferOptions {
    /// A fresh description with nothing set.
    pub fn new() -> (r: TransferOptions)
        ensures
            is_default_options(r),
    {
        TransferOptions {
            verbose: false,
            show_header: false,
            progress: false,
            signal: false,
            fail_on_error: false,
            url: Option::None,
            port: Option::None,
            timeout_millis: Option::None,
            low_speed_limit: Option::None,
            low_speed_time_millis: Option::None,
            max_send_speed: Option::None,
            max_recv_speed: Option::None,
            get: false,
            post: false,
            put: false,
            nobody: false,
            follow_location: false,
            max_redirections: Option::None,
            useragent: Option::None,
            custom_request: Option::None,
            accept_encoding: Option::None,
            post_fields: Option::None,
            http_headers: Vec::new(),
            username: Option::None,
            password: Option::None,
            proxy: Option::None,
            proxy_port: Option::None,
            noproxy: Option::None,
            tcp_nodelay: false,
            buffer_size: Option::None,
            ssl_version: Option::None,
            ssl_min_version: Option::None,
            ssl_max_version: Option::None,
            proxy_ssl_min_version: Option::None,
            proxy_ssl_max_version: Option::None,
        }
    }
}

/// The client that accumulates a transfer description. In the `Build`
/// state its setters record options; `finalize` is the one move to the
/// `Perform` state, which alone lets the description leave for submission:
/// a not-yet-finalized client offers no way to submit, by its type.
///
/// The setters record plain values and always succeed; an option the
/// engine rejects surfaces when the description is applied to the engine's
/// transfer handle at submission, before the transfer starts, rather than
/// at the recording call.
pub struct HttpClient<S> {
    options: TransferOptions,
    collector: ResponseHandler,
    _state: S,
}

impl<S> HttpClient<S> {
    /// The transfer description recorded so far.
    pub closed spec fn spec_options(&self) -> TransferOptions {
        self.options
    }

    /// The response accumulator this client was given.
    pub closed spec fn spec_collector(&self) -> ResponseHandler {
        self.collector
    }
}

impl HttpClient<Build> {
    /// A new client around the given response accumulator, with a fresh
    /// description: nothing set, nothing submitted.
    pub fn new(collector: ResponseHandler) -> (r: HttpClient<Build>)
        ensures
            is_default_options(r.spec_options()),
            r.spec_collector() == collector,
    {
        HttpClient { options: TransferOptions::new(), collector, _state: Build }
    }

    /// Records whether the engine should emit verbose protocol output.
    pub fn verbose(self, verbose: bool) -> (r: Result<HttpClient<Build>, Error>)
        ensures
            r matches Ok(c) && c.spec_options() == (TransferOptions {
                verbose: verbose,
                ..self.spec_options()
            }) && c.spec_collector() == self.spec_collector(),
    {
        let mut options = self.options;
        options.verbose = verbose;
        Result::Ok(HttpClient { options, collector: self.collector, _state: Build })
    }

    /// Records whether response headers go to the body sink.
    pub fn show_header(self, show: bool) -> (r: Result<HttpClient<Build>, Error>)
        ensures
            r matches Ok(c) && c.spec_options() == (TransferOptions {
                show_header: show,
                ..self.spec_options()
            }) && c.spec_collector() == self.spec_collector(),
    {
        let mut options = self.options;
        options.show_header = show;
        Result::Ok(HttpClient { options, collector: self.collector, _state: Build })
    }

    /// Records whether progress reporting is wanted.
    pub fn progress(self, progress: bool) -> (r: Result<HttpClient<Build>, Error>)
        ensures
            r matches Ok(c) && c.spec_options() == (TransferOptions {
                progress: progress,
                ..self.spec_options()
            }) && c.spec_collector() == self.spec_collector(),
    {
        let mut options = self.options;
        options.progress = progress;
        Result::Ok(HttpClient { options, collector: self.collector, _state: Build })
    }

    /// Records whether the engine may use signals for its own timeouts.
    pub fn signal(self, signal: bool) -> (r: Result<HttpClient<Build>, Error>)
        ensures
            r matches Ok(c) && c.spec_options() == (TransferOptions {
                signal: signal,
                ..self.spec_options()
            }) && c.spec_collector() == self.spec_collector(),
    {
        let mut options = self.options;
        options.signal = signal;
        Result::Ok(HttpClient { options, collector: self.collector, _state: Build })
    }

    /// Records whether server errors should fail the transfer outright.
    pub fn fail_on_error(self, fail: bool) -> (r: Result<HttpClient<Build>, Error>)
        ensures
            r matches Ok(c) && c.spec_options() == (TransferOptions {
                fail_on_error: fail,
                ..self.spec_options()
            }) && c.spec_collector() == self.spec_collector(),
    {
        let mut options = self.options;
        options.fail_on_error = fail;
        Result::Ok(HttpClient { options, collector: self.collector, _state: Build })
    }

    /// Records the target location of the transfer.
    pub fn url(self, url: &str) -> (r: Result<HttpClient<Build>, Error>)
        ensures
            r matches Ok(c) && ({
                &&& c.spec_options().url matches Some(u) && u@ == url@
                &&& c.spec_options() == (TransferOptions {
                    url: c.spec_options().url,
                    ..self.spec_options()
                })
                &&& c.spec_collector() == self.spec_collector()
            }),
    {
        let mut options = self.options;
        options.url = Option::Some(url.to_owned());
        Result::Ok(HttpClient { options, collector: self.collector, _state: Build })
    }

    /// Records an explicit target port, overriding the location's own.
    pub fn port(self, port: u16) -> (r: Result<HttpClient<Build>, Error>)
        ensures
            r matches Ok(c) && c.spec_options() == (TransferOptions {
                port: Option::Some(port),
                ..self.spec_options()
            }) && c.spec_collector() == self.spec_collector(),
    {
        let mut options = self.options;
        options.port = Option::Some(port);
        Result::Ok(HttpClient { options, collector: self.collector, _state: Build })
    }

    /// Records the whole-transfer timeout, in milliseconds.
    pub fn timeout(self, millis: u64) -> (r: Result<HttpClient<Build>, Error>)
        ensures
            r matches Ok(c) && c.spec_options() == (TransferOptions {
                timeout_millis: Option::Some(millis),
                ..self.spec_options()
            }) && c.spec_collector() == self.spec_collector(),
    {
        let mut options = self.options;
        options.timeout_millis = Option::Some(millis);
        Result::Ok(HttpClient { options, collector: self.collector, _state: Build })
    }

    /// Records the transfer-speed floor below which the transfer is
    /// considered too slow, in bytes per second.
    pub fn low_speed_limit(self, limit: u32) -> (r: Result<HttpClient<Build>, Error>)
        ensures
            r matches Ok(c) && c.spec_options() == (TransferOptions {
                low_speed_limit: Option::Some(limit),
                ..self.spec_options()
            }) && c.spec_collector() == self.spec_collector(),
    {
        let mut options = self.options;
        options.low_speed_limit = Option::Some(limit);
        Result::Ok(HttpClient { options, collector: self.collector, _state: Build })
    }

    /// Records how long the transfer may stay below the speed floor, in
    /// milliseconds.
    pub fn low_speed_time(self, millis: u64) -> (r: Result<HttpClient<Build>, Error>)
        ensures
            r matches Ok(c) && c.spec_options() == (TransferOptions {
                low_speed_time_millis: Option::Some(millis),
                ..self.spec_options()
            }) && c.spec_collector() == self.spec_collector(),
    {
        let mut options = self.options;
        options.low_speed_time_millis = Option::Some(millis);
        Result::Ok(HttpClient { options, collector: self.collector, _state: Build })
    }

    /// Records the upload rate ceiling, in bytes per second.
    pub fn max_send_speed(self, speed: u64) -> (r: Result<HttpClient<Build>, Error>)
        ensures
            r matches Ok(c) && c.spec_options() == (TransferOptions {
                max_send_speed: Option::Some(speed),
                ..self.spec_options()
            }) && c.spec_collector() == self.spec_collector(),
    {
        let mut options = self.options;
        options.max_send_speed = Option::Some(speed);
        Result::Ok(HttpClient { options, collector: self.collector, _state: Build })
    }

    /// Records the download rate ceiling, in bytes per second.
    pub fn max_recv_speed(self, speed: u64) -> (r: Result<HttpClient<Build>, Error>)
        ensures
            r matches Ok(c) && c.spec_options() == (TransferOptions {
                max_recv_speed: Option::Some(speed),
                ..self.spec_options()
            }) && c.spec_collector() == self.spec_collector(),
    {
        let mut options = self.options;
        options.max_recv_speed = Option::Some(speed);
        Result::Ok(HttpClient { options, collector: self.collector, _state: Build })
    }

    /// Records that the transfer is a plain fetch.
    pub fn get(self, enable: bool) -> (r: Result<HttpClient<Build>, Error>)
        ensures
            r matches Ok(c) && c.spec_options() == (TransferOptions {
                get: enable,
                ..self.spec_options()
            }) && c.spec_collector() == self.spec_collector(),
    {
        let mut options = self.options;
        options.get = enable;
        Result::Ok(HttpClient { options, collector: self.collector, _state: Build })
    }

    /// Records that the transfer posts a body.
    pub fn post(self, enable: bool) -> (r: Result<HttpClient<Build>, Error>)
        ensures
            r matches Ok(c) && c.spec_options() == (TransferOptions {
                post: enable,
                ..self.spec_options()
            }) && c.spec_collector() == self.spec_collector(),
    {
        let mut options = self.options;
        options.post = enable;
        Result::Ok(HttpClient { options, collector: self.collector, _state: Build })
    }

    /// Records that the transfer uploads in place.
    pub fn put(self, enable: bool) -> (r: Result<HttpClient<Build>, Error>)
        ensures
            r matches Ok(c) && c.spec_options() == (TransferOptions {
                put: enable,
                ..self.spec_options()
            }) && c.spec_collector() == self.spec_collector(),
    {
        let mut options = self.options;
        options.put = enable;
        Result::Ok(HttpClient { options, collector: self.collector, _state: Build })
    }

    /// Records that only the headers of the resource are wanted.
    pub fn nobody(self, enable: bool) -> (r: Result<HttpClient<Build>, Error>)
        ensures
            r matches Ok(c) && c.spec_options() == (TransferOptions {
                nobody: enable,
                ..self.spec_options()
            }) && c.spec_collector() == self.spec_collector(),
    {
        let mut options = self.options;
        options.nobody = enable;
        Result::Ok(HttpClient { options, collector: self.collector, _state: Build })
    }

    /// Records whether redirections are followed.
    pub fn follow_location(self, enable: bool) -> (r: Result<HttpClient<Build>, Error>)
        ensures
            r matches Ok(c) && c.spec_options() == (TransferOptions {
                follow_location: enable,
                ..self.spec_options()
            }) && c.spec_collector() == self.spec_collector(),
    {
        let mut options = self.options;
        options.follow_location = enable;
        Result::Ok(HttpClient { options, collector: self.collector, _state: Build })
    }

    /// Records how many redirections may be followed at most.
    pub fn max_redirections(self, max: u32) -> (r: Result<HttpClient<Build>, Error>)
        ensures
            r matches Ok(c) && c.spec_options() == (TransferOptions {
                max_redirections: Option::Some(max),
                ..self.spec_options()
            }) && c.spec_collector() == self.spec_collector(),
    {
        let mut options = self.options;
        options.max_redirections = Option::Some(max);
        Result::Ok(HttpClient { options, collector: self.collector, _state: Build })
    }

    /// Records the user-agent header value.
    pub fn useragent(self, useragent: &str) -> (r: Result<HttpClient<Build>, Error>)
        ensures
            r matches Ok(c) && ({
                &&& c.spec_options().useragent matches Some(u) && u@ == useragent@
                &&& c.spec_options() == (TransferOptions {
                    useragent: c.spec_options().useragent,
                    ..self.spec_options()
                })
                &&& c.spec_collector() == self.spec_collector()
            }),
    {
        let mut options = self.options;
        options.useragent = Option::Some(useragent.to_owned());
        Result::Ok(HttpClient { options, collector: self.collector, _state: Build })
    }

    /// Records a custom request verb to use in place of the standard one.
    pub fn custom_request(self, request: &str) -> (r: Result<HttpClient<Build>, Error>)
        ensures
            r matches Ok(c) && ({
                &&& c.spec_options().custom_request matches Some(u) && u@ == request@
                &&& c.spec_options() == (TransferOptions {
                    custom_request: c.spec_options().custom_request,
                    ..self.spec_options()
                })
                &&& c.spec_collector() == self.spec_collector()
            }),
    {
        let mut options = self.options;
        options.custom_request = Option::Some(request.to_owned());
        Result::Ok(HttpClient { options, collector: self.collector, _state: Build })
    }

    /// Records which content encodings are acceptable.
    pub fn accept_encoding(self, encoding: &str) -> (r: Result<HttpClient<Build>, Error>)
        ensures
            r matches Ok(c) && ({
                &&& c.spec_options().accept_encoding matches Some(u) && u@ == encoding@
                &&& c.spec_options() == (TransferOptions {
                    accept_encoding: c.spec_options().accept_encoding,
                    ..self.spec_options()
                })
                &&& c.spec_collector() == self.spec_collector()
            }),
    {
        let mut options = self.options;
        options.accept_encoding = Option::Some(encoding.to_owned());
        Result::Ok(HttpClient { options, collector: self.collector, _state: Build })
    }

    /// Records a copy of the body to post.
    pub fn post_fields_copy(self, data: &[u8]) -> (r: Result<HttpClient<Build>, Error>)
        ensures
            r matches Ok(c) && ({
                &&& c.spec_options().post_fields matches Some(b) && b@ == data@
                &&& c.spec_options() == (TransferOptions {
                    post_fields: c.spec_options().post_fields,
                    ..self.spec_options()
                })
                &&& c.spec_collector() == self.spec_collector()
            }),
    {
        let mut options = self.options;
        options.post_fields = Option::Some(vstd::slice::slice_to_vec(data));
        Result::Ok(HttpClient { options, collector: self.collector, _state: Build })
    }

    /// Records the request headers to send, one header per entry.
    pub fn http_headers(self, list: Vec<String>) -> (r: Result<HttpClient<Build>, Error>)
        ensures
            r matches Ok(c) && ({
                &&& c.spec_options().http_headers@ == list@
                &&& c.spec_options() == (TransferOptions {
                    http_headers: c.spec_options().http_headers,
                    ..self.spec_options()
                })
                &&& c.spec_collector() == self.spec_collector()
            }),
    {
        let mut options = self.options;
        options.http_headers = list;
        Result::Ok(HttpClient { options, collector: self.collector, _state: Build })
    }

    /// Records the name to authenticate as.
    pub fn username(self, user: &str) -> (r: Result<HttpClient<Build>, Error>)
        ensures
            r matches Ok(c) && ({
                &&& c.spec_options().username matches Some(u) && u@ == user@
                &&& c.spec_options() == (TransferOptions {
                    username: c.spec_options().username,
                    ..self.spec_options()
                })
                &&& c.spec_collector() == self.spec_collector()
            }),
    {
        let mut options = self.options;
        options.username = Option::Some(user.to_owned());
        Result::Ok(HttpClient { options, collector: self.collector, _state: Build })
    }

    /// Records the password to authenticate with.
    pub fn password(self, pass: &str) -> (r: Result<HttpClient<Build>, Error>)
        ensures
            r matches Ok(c) && ({
                &&& c.spec_options().password matches Some(u) && u@ == pass@
                &&& c.spec_options() == (TransferOptions {
                    password: c.spec_options().password,
                    ..self.spec_options()
                })
                &&& c.spec_collector() == self.spec_collector()
            }),
    {
        let mut options = self.options;
        options.password = Option::Some(pass.to_owned());
        Result::Ok(HttpClient { options, collector: self.collector, _state: Build })
    }

    /// Records the proxy to route the transfer through.
    pub fn proxy(self, url: &str) -> (r: Result<HttpClient<Build>, Error>)
        ensures
            r matches Ok(c) && ({
                &&& c.spec_options().proxy matches Some(u) && u@ == url@
                &&& c.spec_options() == (TransferOptions {
                    proxy: c.spec_options().proxy,
                    ..self.spec_options()
                })
                &&& c.spec_collector() == self.spec_collector()
            }),
    {
        let mut options = self.options;
        options.proxy = Option::Some(url.to_owned());
        Result::Ok(HttpClient { options, collector: self.collector, _state: Build })
    }

    /// Records the proxy's port.
    pub fn proxy_port(self, port: u16) -> (r: Result<HttpClient<Build>, Error>)
        ensures
            r matches Ok(c) && c.spec_options() == (TransferOptions {
                proxy_port: Option::Some(port),
                ..self.spec_options()
            }) && c.spec_collector() == self.spec_collector(),
    {
        let mut options = self.options;
        options.proxy_port = Option::Some(port);
        Result::Ok(HttpClient { options, collector: self.collector, _state: Build })
    }

    /// Records the hosts to reach without the proxy.
    pub fn noproxy(self, skip: &str) -> (r: Result<HttpClient<Build>, Error>)
        ensures
            r matches Ok(c) && ({
                &&& c.spec_options().noproxy matches Some(u) && u@ == skip@
                &&& c.spec_options() == (TransferOptions {
                    noproxy: c.spec_options().noproxy,
                    ..self.spec_options()
                })
                &&& c.spec_collector() == self.spec_collector()
            }),
    {
        let mut options = self.options;
        options.noproxy = Option::Some(skip.to_owned());
        Result::Ok(HttpClient { options, collector: self.collector, _state: Build })
    }

    /// Records whether small writes go out at once.
    pub fn tcp_nodelay(self, enable: bool) -> (r: Result<HttpClient<Build>, Error>)
        ensures
            r matches Ok(c) && c.spec_options() == (TransferOptions {
                tcp_nodelay: enable,
                ..self.spec_options()
            }) && c.spec_collector() == self.spec_collector(),
    {
        let mut options = self.options;
        options.tcp_nodelay = enable;
        Result::Ok(HttpClient { options, collector: self.collector, _state: Build })
    }

    /// Records the preferred size of the engine's receive buffer, in bytes.
    pub fn buffer_size(self, size: usize) -> (r: Result<HttpClient<Build>, Error>)
        ensures
            r matches Ok(c) && c.spec_options() == (TransferOptions {
                buffer_size: Option::Some(size),
                ..self.spec_options()
            }) && c.spec_collector() == self.spec_collector(),
    {
        let mut options = self.options;
        options.buffer_size = Option::Some(size);
        Result::Ok(HttpClient { options, collector: self.collector, _state: Build })
    }

    /// Records the one secure-transport version to speak.
    pub fn ssl_version(self, version: SslVersion) -> (r: Result<HttpClient<Build>, Error>)
        ensures
            r matches Ok(c) && c.spec_options() == (TransferOptions {
                ssl_version: Option::Some(version),
                ..self.spec_options()
            }) && c.spec_collector() == self.spec_collector(),
    {
        let mut options = self.options;
        options.ssl_version = Option::Some(version);
        Result::Ok(HttpClient { options, collector: self.collector, _state: Build })
    }

    /// Records the lowest and highest secure-transport versions to accept
    /// for the transfer itself.
    pub fn ssl_min_max_version(
        self,
        min_version: SslVersion,
        max_version: SslVersion,
    ) -> (r: Result<HttpClient<Build>, Error>)
        ensures
            r matches Ok(c) && c.spec_options() == (TransferOptions {
                ssl_min_version: Option::Some(min_version),
                ssl_max_version: Option::Some(max_version),
                ..self.spec_options()
            }) && c.spec_collector() == self.spec_collector(),
    {
        let mut options = self.options;
        options.ssl_min_version = Option::Some(min_version);
        options.ssl_max_version = Option::Some(max_version);
        Result::Ok(HttpClient { options, collector: self.collector, _state: Build })
    }

    /// Records the lowest and highest secure-transport versions to accept
    /// towards the proxy.
    pub fn proxy_ssl_min_max_version(
        self,
        min_version: SslVersion,
        max_version: SslVersion,
    ) -> (r: Result<HttpClient<Build>, Error>)
        ensures
            r matches Ok(c) && c.spec_options() == (TransferOptions {
                proxy_ssl_min_version: Option::Some(min_version),
                proxy_ssl_max_version: Option::Some(max_version),
                ..self.spec_options()
            }) && c.spec_collector() == self.spec_collector(),
    {
        let mut options = self.options;
        options.proxy_ssl_min_version = Option::Some(min_version);
        options.proxy_ssl_max_version = Option::Some(max_version);
        Result::Ok(HttpClient { options, collector: self.collector, _state: Build })
    }

    /// The one move out of the building state: from here on no option can
    /// change, and the description may leave for submission.
    pub fn finalize(self) -> (r: HttpClient<Perform>)
        ensures
            r.spec_options() == self.spec_options(),
            r.spec_collector() == self.spec_collector(),
    {
        HttpClient { options: self.options, collector: self.collector, _state: Perform }
    }
}

impl HttpClient<Perform> {
    /// Surrenders the finalized description and its response accumulator to
    /// the submitting side. Only a finalized client offers this, so a
    /// transfer can never be submitted before `finalize`.
    pub fn into_parts(self) -> (r: (TransferOptions, ResponseHandler))
        ensures
            r.0 == self.spec_options(),
            r.1 == self.spec_collector(),
    {
        (self.options, self.collector)
    }
}

} // verus!
