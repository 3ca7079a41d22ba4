//! What a server is run with, as its settings say, and how it answers
//! where a layer of it fails.
use vstd::prelude::*;
use toml::value::Table;
use crate::config::{
    get_bounded, get_duration, get_str, setting_bounded, setting_duration, setting_text,
    table_settings, Setting,
};
use crate::database::or_default;

verus! {

/// The mathematical content of [`ServerOptions`].
pub struct ServerSpec {
    pub body_limit: u64,
    pub request_timeout: u64,
    pub public_dir: Seq<char>,
}

/// The options that the settings of a server describe. A setting that
/// the table does not hold, or holds as something of another kind, has its
/// default:
/// - `body-limit`: a hundred mebibytes;
/// - `request-timeout`: ten seconds;
/// - `public-dir`: the given default directory.
pub open spec fn resolved_server(settings: Map<Seq<char>, Setting>, default_dir: Seq<char>)
    -> ServerSpec {
    ServerSpec {
        body_limit: or_default(setting_bounded(settings, "body-limit"@, u64::MAX), 104857600),
        request_timeout: or_default(setting_duration(settings, "request-timeout"@), 10000),
        public_dir: or_default(setting_text(settings, "public-dir"@), default_dir),
    }
}

/// The options of a server without settings: every default.
pub open spec fn default_server(default_dir: Seq<char>) -> ServerSpec {
    ServerSpec { body_limit: 104857600, request_timeout: 10000, public_dir: default_dir }
}

/// What a server is run with.
#[derive(Debug)]
pub struct ServerOptions {
    /// The greatest size of the body of a request, in bytes.
    pub body_limit: u64,
    /// The longest time that a request may take, in milliseconds.
    pub request_timeout: u64,
    /// The directory of the files that are served as they are.
    pub public_dir: String,
}

impl View for ServerOptions {
    type V = ServerSpec;

    open spec fn view(&self) -> ServerSpec {
        ServerSpec {
            body_limit: self.body_limit,
            request_timeout: self.request_timeout,
            public_dir: self.public_dir@,
        }
    }
}

impl ServerOptions {
    /// The options that the table `server` of the configuration
    /// describes; every default where the configuration has no such table.
    pub fn from_config(server: Option<&Table>, default_dir: &str) -> (r: ServerOptions)
        ensures
            r@ == (match server {
                Some(table) => resolved_server(table_settings(*table), default_dir@),
                None => default_server(default_dir@),
            }),
    {
        match server {
            Some(table) => ServerOptions {
                body_limit: match get_bounded(table, "body-limit", u64::MAX) {
                    Some(limit) => limit,
                    None => 104857600,
                },
                request_timeout: match get_duration(table, "request-timeout") {
                    Some(timeout) => timeout,
                    None => 10000,
                },
                public_dir: match get_str(table, "public-dir") {
                    Some(dir) => dir,
                    None => String::from_str(default_dir),
                },
            },
            None => ServerOptions {
                body_limit: 104857600,
                request_timeout: 10000,
                public_dir: String::from_str(default_dir),
            },
        }
    }
}

/// Why a layer of the server failed.
#[derive(Clone, Copy, Debug, PartialEq, Eq, Structural)]
pub enum Failure {
    /// The request took longer than it may.
    Elapsed,
    /// The body of the request is larger than it may be.
    LengthLimit,
    /// Anything else.
    Other,
}

/// The status that the server answers with where a layer failed: 408
/// where the request took too long, 413 where its body is too large, and
/// 500 for anything else.
pub fn failure_status(failure: Failure) -> (status: u16)
    ensures
        status == (match failure {
            Failure::Elapsed => 408u16,
            Failure::LengthLimit => 413u16,
            Failure::Other => 500u16,
        }),
{
    match failure {
        Failure::Elapsed => 408,
        Failure::LengthLimit => 413,
        Failure::Other => 500,
    }
}

} // verus!
