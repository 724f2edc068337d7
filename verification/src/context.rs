//! The two documents of the store: the context record and the index.

use vstd::prelude::*;
use vstd::string::*;

verus! {

/// The host that a context connects to unless it says otherwise.
pub open spec fn default_host_text() -> Seq<char> {
    "127.0.0.1"@
}

/// The lattice that a context addresses unless it says otherwise.
pub open spec fn default_lattice_text() -> Seq<char> {
    "default"@
}

/// The port that a context connects to unless it says otherwise.
pub const DEFAULT_NATS_PORT: u16 = 4222;

/// The timeout, in milliseconds, that a context uses unless it says otherwise.
pub const DEFAULT_NATS_TIMEOUT: u64 = 2000;

pub fn default_nats_host() -> (host: String)
    ensures
        host@ == default_host_text(),
{
    String::from_str("127.0.0.1")
}

pub fn default_nats_port() -> (port: u16)
    ensures
        port == DEFAULT_NATS_PORT,
        port == 4222,
{
    DEFAULT_NATS_PORT
}

pub fn default_lattice_prefix() -> (lattice: String)
    ensures
        lattice@ == default_lattice_text(),
{
    String::from_str("default")
}

pub fn default_timeout() -> (timeout: u64)
    ensures
        timeout == DEFAULT_NATS_TIMEOUT,
        timeout == 2000,
{
    DEFAULT_NATS_TIMEOUT
}

/// The index document: the name of the default context.
#[derive(Clone, Debug, PartialEq, Eq)]
pub struct DefaultContext {
    /// Name of the default context
    pub name: String,
}

impl View for DefaultContext {
    type V = Seq<char>;

    open spec fn view(&self) -> Seq<char> {
        self.name@
    }
}

impl DefaultContext {
    pub fn new(name: String) -> (index: Self)
        ensures
            index.name == name,
            index@ == name@,
    {
        DefaultContext { name }
    }
}

/// The view of an optional string.
pub open spec fn opt_text(s: Option<String>) -> Option<Seq<char>> {
    match s {
        Some(t) => Some(t@),
        None => None,
    }
}

/// What a context record holds, as plain values.
pub struct ContextModel {
    pub cluster_seed: Option<Seq<char>>,
    pub control_host: Seq<char>,
    pub control_port: u16,
    pub control_auth_jwt: Option<Seq<char>>,
    pub control_auth_seed: Option<Seq<char>>,
    pub control_credentials_file: Option<Seq<char>>,
    pub control_timeout_ms: u64,
    pub lattice_id: Seq<char>,
    pub rpc_host: Seq<char>,
    pub rpc_port: u16,
    pub rpc_auth_jwt: Option<Seq<char>>,
    pub rpc_auth_seed: Option<Seq<char>>,
    pub rpc_credentials_file: Option<Seq<char>>,
    pub rpc_timeout_ms: u64,
}

/// The record that a new context starts from, and that a document with no
/// fields stands for.
pub open spec fn default_record() -> ContextModel {
    ContextModel {
        cluster_seed: None,
        control_host: default_host_text(),
        control_port: 4222,
        control_auth_jwt: None,
        control_auth_seed: None,
        control_credentials_file: None,
        control_timeout_ms: 2000,
        lattice_id: default_lattice_text(),
        rpc_host: default_host_text(),
        rpc_port: 4222,
        rpc_auth_jwt: None,
        rpc_auth_seed: None,
        rpc_credentials_file: None,
        rpc_timeout_ms: 2000,
    }
}

/// The connection parameters of one named context.
#[derive(Clone, Debug, PartialEq, Eq)]
pub struct WashContext {
    pub cluster_seed: Option<String>,
    pub control_host: String,
    pub control_port: u16,
    pub control_auth_jwt: Option<String>,
    pub control_auth_seed: Option<String>,
    pub control_credentials_file: Option<String>,
    pub control_timeout_ms: u64,
    pub lattice_id: String,
    pub rpc_host: String,
    pub rpc_port: u16,
    pub rpc_auth_jwt: Option<String>,
    pub rpc_auth_seed: Option<String>,
    pub rpc_credentials_file: Option<String>,
    pub rpc_timeout_ms: u64,
}

impl View for WashContext {
    type V = ContextModel;

    open spec fn view(&self) -> ContextModel {
        ContextModel {
            cluster_seed: opt_text(self.cluster_seed),
            control_host: self.control_host@,
            control_port: self.control_port,
            control_auth_jwt: opt_text(self.control_auth_jwt),
            control_auth_seed: opt_text(self.control_auth_seed),
            control_credentials_file: opt_text(self.control_credentials_file),
            control_timeout_ms: self.control_timeout_ms,
            lattice_id: self.lattice_id@,
            rpc_host: self.rpc_host@,
            rpc_port: self.rpc_port,
            rpc_auth_jwt: opt_text(self.rpc_auth_jwt),
            rpc_auth_seed: opt_text(self.rpc_auth_seed),
            rpc_credentials_file: opt_text(self.rpc_credentials_file),
            rpc_timeout_ms: self.rpc_timeout_ms,
        }
    }
}

impl Default for WashContext {
    fn default() -> (record: Self)
        ensures
            record@ == default_record(),
    {
        WashContext {
            cluster_seed: None,
            control_host: default_nats_host(),
            control_port: default_nats_port(),
            control_auth_jwt: None,
            control_auth_seed: None,
            control_credentials_file: None,
            control_timeout_ms: default_timeout(),
            lattice_id: default_lattice_prefix(),
            rpc_host: default_nats_host(),
            rpc_port: default_nats_port(),
            rpc_auth_jwt: None,
            rpc_auth_seed: None,
            rpc_credentials_file: None,
            rpc_timeout_ms: default_timeout(),
        }
    }
}

/// What a context document holds, as plain values: each field as it is
/// written, or nothing where the document leaves it out.
pub struct DocumentModel {
    pub cluster_seed: Option<Seq<char>>,
    pub control_host: Option<Seq<char>>,
    pub control_port: Option<u16>,
    pub control_auth_jwt: Option<Seq<char>>,
    pub control_auth_seed: Option<Seq<char>>,
    pub control_credentials_file: Option<Seq<char>>,
    pub control_timeout_ms: Option<u64>,
    pub lattice_id: Option<Seq<char>>,
    pub rpc_host: Option<Seq<char>>,
    pub rpc_port: Option<u16>,
    pub rpc_auth_jwt: Option<Seq<char>>,
    pub rpc_auth_seed: Option<Seq<char>>,
    pub rpc_credentials_file: Option<Seq<char>>,
    pub rpc_timeout_ms: Option<u64>,
}

/// The document with no fields.
pub open spec fn empty_document() -> DocumentModel {
    DocumentModel {
        cluster_seed: None,
        control_host: None,
        control_port: None,
        control_auth_jwt: None,
        control_auth_seed: None,
        control_credentials_file: None,
        control_timeout_ms: None,
        lattice_id: None,
        rpc_host: None,
        rpc_port: None,
        rpc_auth_jwt: None,
        rpc_auth_seed: None,
        rpc_credentials_file: None,
        rpc_timeout_ms: None,
    }
}

/// The text of a field, or `default` where the document leaves it out.
pub open spec fn text_or(field: Option<Seq<char>>, default: Seq<char>) -> Seq<char> {
    match field {
        Some(text) => text,
        None => default,
    }
}

/// The record that a document stands for: a host, a port, a timeout or the
/// lattice that it leaves out takes its default; a seed, a token or a
/// credentials file that it leaves out is absent.
pub open spec fn resolved(document: DocumentModel) -> ContextModel {
    ContextModel {
        cluster_seed: document.cluster_seed,
        control_host: text_or(document.control_host, default_host_text()),
        control_port: match document.control_port {
            Some(port) => port,
            None => 4222,
        },
        control_auth_jwt: document.control_auth_jwt,
        control_auth_seed: document.control_auth_seed,
        control_credentials_file: document.control_credentials_file,
        control_timeout_ms: match document.control_timeout_ms {
            Some(timeout) => timeout,
            None => 2000,
        },
        lattice_id: text_or(document.lattice_id, default_lattice_text()),
        rpc_host: text_or(document.rpc_host, default_host_text()),
        rpc_port: match document.rpc_port {
            Some(port) => port,
            None => 4222,
        },
        rpc_auth_jwt: document.rpc_auth_jwt,
        rpc_auth_seed: document.rpc_auth_seed,
        rpc_credentials_file: document.rpc_credentials_file,
        rpc_timeout_ms: match document.rpc_timeout_ms {
            Some(timeout) => timeout,
            None => 2000,
        },
    }
}

/// The document that is written for a record: every host, port, timeout and
/// the lattice are written out, a default too.
pub open spec fn materialized(record: ContextModel) -> DocumentModel {
    DocumentModel {
        cluster_seed: record.cluster_seed,
        control_host: Some(record.control_host),
        control_port: Some(record.control_port),
        control_auth_jwt: record.control_auth_jwt,
        control_auth_seed: record.control_auth_seed,
        control_credentials_file: record.control_credentials_file,
        control_timeout_ms: Some(record.control_timeout_ms),
        lattice_id: Some(record.lattice_id),
        rpc_host: Some(record.rpc_host),
        rpc_port: Some(record.rpc_port),
        rpc_auth_jwt: record.rpc_auth_jwt,
        rpc_auth_seed: record.rpc_auth_seed,
        rpc_credentials_file: record.rpc_credentials_file,
        rpc_timeout_ms: Some(record.rpc_timeout_ms),
    }
}

/// A context document as it is read or written: each field, or nothing
/// where the document leaves it out.
#[derive(Clone, Debug, PartialEq, Eq)]
pub struct ContextDocument {
    pub cluster_seed: Option<String>,
    pub control_host: Option<String>,
    pub control_port: Option<u16>,
    pub control_auth_jwt: Option<String>,
    pub control_auth_seed: Option<String>,
    pub control_credentials_file: Option<String>,
    pub control_timeout_ms: Option<u64>,
    pub lattice_id: Option<String>,
    pub rpc_host: Option<String>,
    pub rpc_port: Option<u16>,
    pub rpc_auth_jwt: Option<String>,
    pub rpc_auth_seed: Option<String>,
    pub rpc_credentials_file: Option<String>,
    pub rpc_timeout_ms: Option<u64>,
}

impl View for ContextDocument {
    type V = DocumentModel;

    open spec fn view(&self) -> DocumentModel {
        DocumentModel {
            cluster_seed: opt_text(self.cluster_seed),
            control_host: opt_text(self.control_host),
            control_port: self.control_port,
            control_auth_jwt: opt_text(self.control_auth_jwt),
            control_auth_seed: opt_text(self.control_auth_seed),
            control_credentials_file: opt_text(self.control_credentials_file),
            control_timeout_ms: self.control_timeout_ms,
            lattice_id: opt_text(self.lattice_id),
            rpc_host: opt_text(self.rpc_host),
            rpc_port: self.rpc_port,
            rpc_auth_jwt: opt_text(self.rpc_auth_jwt),
            rpc_auth_seed: opt_text(self.rpc_auth_seed),
            rpc_credentials_file: opt_text(self.rpc_credentials_file),
            rpc_timeout_ms: self.rpc_timeout_ms,
        }
    }
}

fn host_or_default(field: Option<String>) -> (host: String)
    ensures
        host@ == text_or(opt_text(field), default_host_text()),
{
    match field {
        Some(text) => text,
        None => default_nats_host(),
    }
}

fn port_or_default(field: Option<u16>) -> (port: u16)
    ensures
        port == match field {
            Some(p) => p,
            None => 4222u16,
        },
{
    match field {
        Some(p) => p,
        None => default_nats_port(),
    }
}

fn timeout_or_default(field: Option<u64>) -> (timeout: u64)
    ensures
        timeout == match field {
            Some(t) => t,
            None => 2000u64,
        },
{
    match field {
        Some(t) => t,
        None => default_timeout(),
    }
}

impl ContextDocument {
    /// The document with no fields.
    pub fn empty() -> (document: Self)
        ensures
            document@ == empty_document(),
    {
        ContextDocument {
            cluster_seed: None,
            control_host: None,
            control_port: None,
            control_auth_jwt: None,
            control_auth_seed: None,
            control_credentials_file: None,
            control_timeout_ms: None,
            lattice_id: None,
            rpc_host: None,
            rpc_port: None,
            rpc_auth_jwt: None,
            rpc_auth_seed: None,
            rpc_credentials_file: None,
            rpc_timeout_ms: None,
        }
    }
}

impl WashContext {
    /// The record that a document stands for: what it leaves out takes its
    /// default.
    pub fn from_document(document: ContextDocument) -> (record: Self)
        ensures
            record@ == resolved(document@),
    {
        WashContext {
            cluster_seed: document.cluster_seed,
            control_host: host_or_default(document.control_host),
            control_port: port_or_default(document.control_port),
            control_auth_jwt: document.control_auth_jwt,
            control_auth_seed: document.control_auth_seed,
            control_credentials_file: document.control_credentials_file,
            control_timeout_ms: timeout_or_default(document.control_timeout_ms),
            lattice_id: match document.lattice_id {
                Some(text) => text,
                None => default_lattice_prefix(),
            },
            rpc_host: host_or_default(document.rpc_host),
            rpc_port: port_or_default(document.rpc_port),
            rpc_auth_jwt: document.rpc_auth_jwt,
            rpc_auth_seed: document.rpc_auth_seed,
            rpc_credentials_file: document.rpc_credentials_file,
            rpc_timeout_ms: timeout_or_default(document.rpc_timeout_ms),
        }
    }

    /// The document that is written for this record, with every default in it.
    pub fn into_document(self) -> (document: ContextDocument)
        ensures
            document@ == materialized(self@),
    {
        ContextDocument {
            cluster_seed: self.cluster_seed,
            control_host: Some(self.control_host),
            control_port: Some(self.control_port),
            control_auth_jwt: self.control_auth_jwt,
            control_auth_seed: self.control_auth_seed,
            control_credentials_file: self.control_credentials_file,
            control_timeout_ms: Some(self.control_timeout_ms),
            lattice_id: Some(self.lattice_id),
            rpc_host: Some(self.rpc_host),
            rpc_port: Some(self.rpc_port),
            rpc_auth_jwt: self.rpc_auth_jwt,
            rpc_auth_seed: self.rpc_auth_seed,
            rpc_credentials_file: self.rpc_credentials_file,
            rpc_timeout_ms: Some(self.rpc_timeout_ms),
        }
    }
}

} // verus!
