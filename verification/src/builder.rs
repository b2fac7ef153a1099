//! Configuring a sink, step by step, and making it.
use crate::auth::{credentials_fit, encode_credentials, encoded_credentials, AuthenticationMethod};
use crate::backend::{Backend, NetworkingBackend};
use crate::endpoint::{local_endpoint, Endpoint};
use crate::labels::{put, Labels, Pairs};
use crate::noop::NoopBackend;
use crate::reqwest::{current_runtime, ReqwestBackend};
use crate::sink::{Fenrir, FenrirView, SerializationFormat};
use crate::ureq::UreqBackend;
use tokio::runtime::Handle;
use vstd::prelude::*;
use vstd::string::*;

verus! {

/// The number of entries after which a sink flushes, where nothing else is
/// configured.
pub const DEFAULT_FLUSH_THRESHOLD: usize = 100;

/// What is wrong with a configuration that is to be validated.
#[derive(Clone, Copy, Debug, PartialEq, Eq, Structural)]
pub enum ConfigurationError {
    /// No networking backend was selected.
    MissingNetworkingBackend,
    /// No serialization format was selected.
    MissingSerializationFormat,
    /// The selected backend delivers in the background, and no runtime was
    /// set for it.
    MissingRuntime,
}

/// Collects the configuration of a sink. It is made by `Fenrir::builder`.
#[derive(Debug)]
pub struct FenrirBuilder {
    endpoint: Endpoint,
    authentication: AuthenticationMethod,
    network_backend: NetworkingBackend,
    serialization_format: SerializationFormat,
    additional_tags: Labels,
    credentials: String,
    include_level: bool,
    include_framework: bool,
    structured_logging: bool,
    json_log_fmt: bool,
    runtime: Option<Handle>,
    flush_threshold: usize,
    max_message_size: Option<usize>,
}

/// The configuration that a builder holds.
pub struct BuilderView {
    pub endpoint: Seq<char>,
    pub authentication: AuthenticationMethod,
    pub network_backend: NetworkingBackend,
    pub serialization_format: SerializationFormat,
    pub additional_tags: Pairs,
    pub credentials: Seq<char>,
    pub include_level: bool,
    pub include_framework: bool,
    pub structured_logging: bool,
    pub json_log_fmt: bool,
    pub runtime: Option<Handle>,
    pub flush_threshold: usize,
    pub max_message_size: Option<usize>,
}

impl View for FenrirBuilder {
    type V = BuilderView;

    closed spec fn view(&self) -> BuilderView {
        BuilderView {
            endpoint: self.endpoint@,
            authentication: self.authentication,
            network_backend: self.network_backend,
            serialization_format: self.serialization_format,
            additional_tags: self.additional_tags.pairs(),
            credentials: self.credentials@,
            include_level: self.include_level,
            include_framework: self.include_framework,
            structured_logging: self.structured_logging,
            json_log_fmt: self.json_log_fmt,
            runtime: self.runtime,
            flush_threshold: self.flush_threshold,
            max_message_size: self.max_message_size,
        }
    }
}

/// The configuration of a fresh builder: the local endpoint, no
/// authentication, the backend that does nothing, no serialization, no
/// tags, a threshold of 100 entries and no limit on the size of a line.
pub open spec fn default_configuration() -> BuilderView {
    BuilderView {
        endpoint: local_endpoint(),
        authentication: AuthenticationMethod::NoAuth,
        network_backend: NetworkingBackend::Noop,
        serialization_format: SerializationFormat::Disabled,
        additional_tags: Seq::empty(),
        credentials: Seq::empty(),
        include_level: false,
        include_framework: false,
        structured_logging: false,
        json_log_fmt: false,
        runtime: None,
        flush_threshold: DEFAULT_FLUSH_THRESHOLD,
        max_message_size: None,
    }
}

/// The first thing that validation finds wrong with a configuration, if
/// anything.
pub open spec fn configuration_error(c: BuilderView) -> Option<ConfigurationError> {
    if c.network_backend == NetworkingBackend::Noop {
        Some(ConfigurationError::MissingNetworkingBackend)
    } else if c.serialization_format == SerializationFormat::Disabled {
        Some(ConfigurationError::MissingSerializationFormat)
    } else if c.runtime is None && c.network_backend.is_async() {
        Some(ConfigurationError::MissingRuntime)
    } else {
        None
    }
}

/// `backend` is the backend that a configuration asks for. The backend
/// that does nothing keeps neither endpoint nor credentials. A runtime
/// that was set is the one that the background backend gets.
pub open spec fn is_backend_of(c: BuilderView, backend: Backend) -> bool {
    match c.network_backend {
        NetworkingBackend::Noop => backend is Noop,
        NetworkingBackend::Ureq => {
            &&& backend matches Backend::Ureq(b)
            &&& b.endpoint@ == c.endpoint
            &&& b.authentication == c.authentication
            &&& b.credentials@ == c.credentials
        },
        NetworkingBackend::Reqwest => {
            &&& backend matches Backend::Reqwest(b)
            &&& b.endpoint@ == c.endpoint
            &&& b.authentication == c.authentication
            &&& b.credentials@ == c.credentials
            &&& c.runtime is Some ==> b.runtime_handle == c.runtime
        },
    }
}

/// `sink` is the configuration of the sink that `c` asks for.
pub open spec fn is_sink_of(c: BuilderView, sink: FenrirView) -> bool {
    &&& is_backend_of(c, sink.backend)
    &&& sink.additional_tags == c.additional_tags
    &&& sink.serializer == c.serialization_format
    &&& sink.include_level == c.include_level
    &&& sink.include_framework == c.include_framework
    &&& sink.structured_logging == c.structured_logging
    &&& sink.json_log_fmt == c.json_log_fmt
    &&& sink.flush_threshold == c.flush_threshold
    &&& sink.max_message_size == c.max_message_size
}

impl Fenrir {
    /// A builder with the default configuration.
    pub fn builder() -> (r: FenrirBuilder)
        ensures
            r@ == default_configuration(),
    {
        FenrirBuilder {
            endpoint: Endpoint::local(),
            authentication: AuthenticationMethod::NoAuth,
            network_backend: NetworkingBackend::Noop,
            serialization_format: SerializationFormat::Disabled,
            additional_tags: Labels::new(),
            credentials: String::new(),
            include_level: false,
            include_framework: false,
            structured_logging: false,
            json_log_fmt: false,
            runtime: None,
            flush_threshold: DEFAULT_FLUSH_THRESHOLD,
            max_message_size: None,
        }
    }
}

impl FenrirBuilder {
    /// Every builder holds a threshold above zero and, where it holds a
    /// maximum for the size of a line, one above zero.
    #[verifier::type_invariant]
    closed spec fn sound(self) -> bool {
        self.flush_threshold > 0 && self.max_message_size != Some(0usize)
    }

    /// Sets the endpoint that the batches go to.
    pub fn endpoint(self, endpoint: Endpoint) -> (r: FenrirBuilder)
        ensures
            r@ == (BuilderView { endpoint: endpoint@, ..self@ }),
    {
        let mut this = self;
        proof {
            use_type_invariant(&this);
        }
        this.endpoint = endpoint;
        this
    }

    /// Selects the networking backend.
    pub fn network(self, backend: NetworkingBackend) -> (r: FenrirBuilder)
        ensures
            r@ == (BuilderView { network_backend: backend, ..self@ }),
    {
        let mut this = self;
        proof {
            use_type_invariant(&this);
        }
        this.network_backend = backend;
        this
    }

    /// Sets how to authenticate. For Basic authentication the credentials
    /// are encoded here and now; without authentication the credentials
    /// that the builder holds stay as they are.
    pub fn with_authentication(
        self,
        method: AuthenticationMethod,
        username: String,
        password: String,
    ) -> (r: FenrirBuilder)
        requires
            method == AuthenticationMethod::Basic ==> credentials_fit(username@, password@),
        ensures
            r@ == (BuilderView {
                authentication: method,
                credentials: match method {
                    AuthenticationMethod::NoAuth => self@.credentials,
                    AuthenticationMethod::Basic => encoded_credentials(username@, password@),
                },
                ..self@
            }),
    {
        let mut this = self;
        proof {
            use_type_invariant(&this);
        }
        match method {
            AuthenticationMethod::NoAuth => {},
            AuthenticationMethod::Basic => {
                this.credentials = encode_credentials(username.as_str(), password.as_str());
            },
        }
        this.authentication = method;
        this
    }

    /// Selects the format in which batches are serialized.
    pub fn format(self, format: SerializationFormat) -> (r: FenrirBuilder)
        ensures
            r@ == (BuilderView { serialization_format: format, ..self@ }),
    {
        let mut this = self;
        proof {
            use_type_invariant(&this);
        }
        this.serialization_format = format;
        this
    }

    /// Adds a static tag to every entry. A tag of the same name that was
    /// added before is replaced.
    pub fn tag(self, name: &str, value: &str) -> (r: FenrirBuilder)
        ensures
            r@ == (BuilderView {
                additional_tags: put(self@.additional_tags, name@, value@),
                ..self@
            }),
    {
        let mut this = self;
        proof {
            use_type_invariant(&this);
        }
        let mut tags = Labels::new();
        std::mem::swap(&mut tags, &mut this.additional_tags);
        tags.insert(String::from_str(name), String::from_str(value));
        this.additional_tags = tags;
        this
    }

    /// Asks for the level of each event as a label.
    pub fn include_level(self) -> (r: FenrirBuilder)
        ensures
            r@ == (BuilderView { include_level: true, ..self@ }),
    {
        let mut this = self;
        proof {
            use_type_invariant(&this);
        }
        this.include_level = true;
        this
    }

    /// Asks for a label that marks the logging framework. The same can be
    /// had with `tag`.
    pub fn include_framework(self) -> (r: FenrirBuilder)
        ensures
            r@ == (BuilderView { include_framework: true, ..self@ }),
    {
        let mut this = self;
        proof {
            use_type_invariant(&this);
        }
        this.include_framework = true;
        this
    }

    /// Asks for the structured data of each event as labels.
    pub fn structured_logging(self) -> (r: FenrirBuilder)
        ensures
            r@ == (BuilderView { structured_logging: true, ..self@ }),
    {
        let mut this = self;
        proof {
            use_type_invariant(&this);
        }
        this.structured_logging = true;
        this
    }

    /// Asks for the line of each entry as a JSON object that carries file,
    /// line, module, level, target and message of the event.
    pub fn json_log_fmt(self) -> (r: FenrirBuilder)
        ensures
            r@ == (BuilderView { json_log_fmt: true, ..self@ }),
    {
        let mut this = self;
        proof {
            use_type_invariant(&this);
        }
        this.json_log_fmt = true;
        this
    }

    /// Sets the runtime that runs the background tasks.
    pub fn tokio_rt_handle(self, rt_handle: Handle) -> (r: FenrirBuilder)
        ensures
            r@ == (BuilderView { runtime: Some(rt_handle), ..self@ }),
    {
        let mut this = self;
        proof {
            use_type_invariant(&this);
        }
        this.runtime = Some(rt_handle);
        this
    }

    /// Looks for the runtime that the caller runs in and sets it. Outside
    /// of a runtime none is found, and the builder then holds none.
    pub fn tokio_rt_handle_current(self) -> (r: FenrirBuilder)
        ensures
            r@ == (BuilderView { runtime: r@.runtime, ..self@ }),
    {
        self.with_runtime(current_runtime())
    }

    /// Sets what the builder holds as its runtime: the given one, or none.
    pub fn with_runtime(self, runtime: Option<Handle>) -> (r: FenrirBuilder)
        ensures
            r@ == (BuilderView { runtime, ..self@ }),
    {
        let mut this = self;
        proof {
            use_type_invariant(&this);
        }
        this.runtime = runtime;
        this
    }

    /// Sets the number of entries after which the sink flushes. It must be
    /// above zero.
    pub fn flush_threshold(self, size: usize) -> (r: FenrirBuilder)
        requires
            size > 0,
        ensures
            r@ == (BuilderView { flush_threshold: size, ..self@ }),
    {
        let mut this = self;
        proof {
            use_type_invariant(&this);
        }
        this.flush_threshold = size;
        this
    }

    /// Sets the greatest size in bytes that a line may have, or lifts the
    /// limit with `None`. A limit must be above zero.
    pub fn max_message_size(self, size: Option<usize>) -> (r: FenrirBuilder)
        requires
            size != Some(0usize),
        ensures
            r@ == (BuilderView { max_message_size: size, ..self@ }),
    {
        let mut this = self;
        proof {
            use_type_invariant(&this);
        }
        this.max_message_size = size;
        this
    }

    /// Validates the configuration: a networking backend and a
    /// serialization format must be selected, and a backend that delivers
    /// in the background needs a runtime.
    pub fn validate(&self) -> (r: Result<(), ConfigurationError>)
        ensures
            match r {
                Ok(_) => configuration_error(self@) is None,
                Err(e) => configuration_error(self@) == Some(e),
            },
    {
        if self.network_backend == NetworkingBackend::Noop {
            Err(ConfigurationError::MissingNetworkingBackend)
        } else if self.serialization_format == SerializationFormat::Disabled {
            Err(ConfigurationError::MissingSerializationFormat)
        } else if self.runtime.is_none() && self.network_backend.is_async() {
            Err(ConfigurationError::MissingRuntime)
        } else {
            Ok(())
        }
    }

    /// Makes the sink from a configuration that validation accepts.
    pub fn build_with_validation(self) -> (r: Fenrir)
        requires
            configuration_error(self@) is None,
        ensures
            is_sink_of(self@, r@),
    {
        self.build()
    }

    /// Makes the sink, without validation. A background backend for which
    /// no runtime was set takes the runtime that the caller runs in, if
    /// there is one.
    pub fn build(self) -> (r: Fenrir)
        ensures
            is_sink_of(self@, r@),
    {
        proof {
            use_type_invariant(&self);
        }
        let network_backend = match self.network_backend {
            NetworkingBackend::Noop => Backend::Noop(NoopBackend {  }),
            NetworkingBackend::Ureq => Backend::Ureq(
                UreqBackend {
                    authentication: self.authentication,
                    credentials: self.credentials,
                    endpoint: self.endpoint,
                },
            ),
            NetworkingBackend::Reqwest => Backend::Reqwest(
                ReqwestBackend {
                    authentication: self.authentication,
                    credentials: self.credentials,
                    endpoint: self.endpoint,
                    runtime_handle: match self.runtime {
                        Some(handle) => Some(handle),
                        None => current_runtime(),
                    },
                },
            ),
        };
        Fenrir::assemble(
            network_backend,
            self.additional_tags,
            self.serialization_format,
            self.include_level,
            self.include_framework,
            self.structured_logging,
            self.json_log_fmt,
            self.flush_threshold,
            self.max_message_size,
        )
    }
}

} // verus!
