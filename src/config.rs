//! Operator-supplied values exposed through dedicated endpoints.
use vstd::prelude::*;
use crate::reply::{text_view, Reply, ReplyView, STATUS_NOT_FOUND, STATUS_OK};
use crate::text::opt_view;

verus! {

/// The settings a server starts with. Paths are kept as strings.
#[derive(Debug)]
pub struct Config {
    pub bind_address: String,
    pub secret_key: Option<String>,
    pub config_key: Option<String>,
    pub config_file: Option<String>,
    pub config_map_file: Option<String>,
    pub secret_map_file: Option<String>,
}

/// The reply exposing an optional string value.
pub open spec fn str_view(o: Option<Seq<char>>) -> ReplyView {
    match o {
        Some(s) => text_view(STATUS_OK, s),
        None => text_view(STATUS_NOT_FOUND, "Not Configured"@),
    }
}

/// The reply exposing the file at an optional path.
pub open spec fn file_view(o: Option<Seq<char>>) -> ReplyView {
    match o {
        Some(p) => ReplyView::File { path: p },
        None => ReplyView::NotFoundPage,
    }
}

/// The configured string as plain text, or 404 "Not Configured".
pub fn str_response(option: &Option<String>) -> (r: Reply)
    ensures
        r@ == str_view(opt_view(*option)),
{
    match option {
        Some(s) => Reply::Text { status: STATUS_OK, body: s.clone() },
        None => Reply::text(STATUS_NOT_FOUND, "Not Configured"),
    }
}

/// The file at the configured path, or the not-found page.
pub fn file_response(option: &Option<String>) -> (r: Reply)
    ensures
        r@ == file_view(opt_view(*option)),
{
    match option {
        Some(p) => Reply::File { path: p.clone() },
        None => Reply::NotFoundPage,
    }
}

impl Config {
    /// Settings that bind to `bind_address` and expose nothing.
    pub fn new(bind_address: String) -> (r: Config)
        ensures
            r.bind_address@ == bind_address@,
            r.secret_key is None,
            r.config_key is None,
            r.config_file is None,
            r.config_map_file is None,
            r.secret_map_file is None,
    {
        Config {
            bind_address,
            secret_key: None,
            config_key: None,
            config_file: None,
            config_map_file: None,
            secret_map_file: None,
        }
    }

    /// The reply of the secret endpoint.
    pub fn secret_key(&self) -> (r: Reply)
        ensures
            r@ == str_view(opt_view(self.secret_key)),
    {
        str_response(&self.secret_key)
    }

    /// The reply of the config endpoint.
    pub fn config_key(&self) -> (r: Reply)
        ensures
            r@ == str_view(opt_view(self.config_key)),
    {
        str_response(&self.config_key)
    }

    /// The reply of the config-file endpoint.
    pub fn config_file(&self) -> (r: Reply)
        ensures
            r@ == file_view(opt_view(self.config_file)),
    {
        file_response(&self.config_file)
    }

    /// The reply of the config-map-file endpoint.
    pub fn config_map_file(&self) -> (r: Reply)
        ensures
            r@ == file_view(opt_view(self.config_map_file)),
    {
        file_response(&self.config_map_file)
    }

    /// The reply of the secret-map-file endpoint.
    pub fn secret_map_file(&self) -> (r: Reply)
        ensures
            r@ == file_view(opt_view(self.secret_map_file)),
    {
        file_response(&self.secret_map_file)
    }
}

} // verus!
