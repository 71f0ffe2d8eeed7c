//! Remote agent environments: how a remote runtime is reached, its
//! configuration, where a session originated, and the failures that remote
//! operations report.
use std::collections::HashMap;
use vstd::prelude::*;
use vstd::string::StringExecFns;

use crate::text::{concat2, decimal, lemma_decimal_reads_back, owned, push_decimal};

verus! {

/// Supported transport mechanisms to connect to a remote agent runtime.
#[derive(Debug, Clone, PartialEq, Eq, Structural)]
pub enum RemoteTransport {
    /// Secure SSH execution channel
    Ssh,
    /// Secure WebSocket / HTTP agent gateway
    Gateway,
    /// Unix domain or TCP bridge
    Bridge,
}

impl Default for RemoteTransport {
    /// The gateway transport.
    fn default() -> (r: Self)
        ensures
            r == RemoteTransport::Gateway,
    {
        RemoteTransport::Gateway
    }
}

/// Default connection and execution timeout of a remote environment, in seconds.
pub fn default_timeout_secs() -> (r: u64)
    ensures
        r == 30,
{
    30
}

/// Default for flags that are on unless configured otherwise.
pub fn default_true() -> (r: bool)
    ensures
        r,
{
    true
}

/// Configuration for a remote execution environment.
#[derive(PartialEq, Eq)]
pub struct RemoteEnvironmentConfig {
    /// Unique identifier for this remote environment (e.g. "cloud-gpu", "staging-cluster").
    pub name: String,
    /// Network address or endpoint (e.g. "agent.internal.net:9000", "192.168.1.50").
    pub endpoint: String,
    /// Transport protocol.
    pub transport: RemoteTransport,
    /// Remote base working directory.
    pub remote_cwd: Option<String>,
    /// Environment variables specific to the remote host.
    pub env: HashMap<String, String>,
    /// Authorization token or credential reference; never shown by `redacted_debug`.
    pub auth_token: Option<String>,
    /// Connection and execution timeout in seconds.
    pub timeout_secs: u64,
    /// Whether this remote environment is enabled.
    pub enabled: bool,
}

/// `b` is a copy of `a`: the same fields, and an environment map with the
/// same entries.
pub open spec fn is_copy_of(a: RemoteEnvironmentConfig, b: RemoteEnvironmentConfig) -> bool {
    &&& b.name == a.name
    &&& b.endpoint == a.endpoint
    &&& b.transport == a.transport
    &&& b.remote_cwd == a.remote_cwd
    &&& b.env@ == a.env@
    &&& b.auth_token == a.auth_token
    &&& b.timeout_secs == a.timeout_secs
    &&& b.enabled == a.enabled
}

/// A copy of an optional text.
pub(crate) fn copy_opt_text(o: &Option<String>) -> (r: Option<String>)
    ensures
        r == *o,
{
    match o {
        Some(s) => Some(s.clone()),
        None => None,
    }
}

impl Clone for RemoteEnvironmentConfig {
    /// A copy of the configuration.
    fn clone(&self) -> (r: Self)
        ensures
            is_copy_of(*self, r),
    {
        RemoteEnvironmentConfig {
            name: self.name.clone(),
            endpoint: self.endpoint.clone(),
            transport: match self.transport {
                RemoteTransport::Ssh => RemoteTransport::Ssh,
                RemoteTransport::Gateway => RemoteTransport::Gateway,
                RemoteTransport::Bridge => RemoteTransport::Bridge,
            },
            remote_cwd: copy_opt_text(&self.remote_cwd),
            env: self.env.clone(),
            auth_token: copy_opt_text(&self.auth_token),
            timeout_secs: self.timeout_secs,
            enabled: self.enabled,
        }
    }
}

/// Structured origin label indicating where a session or process originated.
#[derive(Debug, Clone, PartialEq, Eq)]
pub enum SessionOrigin {
    /// Running locally on the daemon host.
    Local,
    /// Running in a configured remote environment.
    Remote(String),
}

impl Default for SessionOrigin {
    /// A local origin.
    fn default() -> (r: Self)
        ensures
            r == SessionOrigin::Local,
    {
        SessionOrigin::Local
    }
}

/// The label of an origin: `local`, or `remote:` followed by the environment name.
pub open spec fn origin_label_spec(o: SessionOrigin) -> Seq<char> {
    match o {
        SessionOrigin::Local => "local"@,
        SessionOrigin::Remote(name) => "remote:"@ + name@,
    }
}

/// The bare name of an origin: `local`, or the environment name.
pub open spec fn origin_name_spec(o: SessionOrigin) -> Seq<char> {
    match o {
        SessionOrigin::Local => "local"@,
        SessionOrigin::Remote(name) => name@,
    }
}

impl SessionOrigin {
    /// The bare name of the origin: `local`, or the name of the remote environment.
    pub fn as_str(&self) -> (r: &str)
        ensures
            r@ == origin_name_spec(*self),
    {
        match self {
            SessionOrigin::Local => "local",
            SessionOrigin::Remote(name) => name.as_str(),
        }
    }

    /// The label shown for the origin: `local`, or `remote:` and the name.
    pub fn to_display_label(&self) -> (r: String)
        ensures
            r@ == origin_label_spec(*self),
    {
        self.origin_label()
    }

    /// Origin label formatted for status and history projection.
    pub fn origin_label(&self) -> (r: String)
        ensures
            r@ == origin_label_spec(*self),
    {
        match self {
            SessionOrigin::Local => owned("local"),
            SessionOrigin::Remote(name) => concat2("remote:", name.as_str()),
        }
    }

    /// The displayed form of the origin, which is its label.
    pub fn to_string(&self) -> (r: String)
        ensures
            r@ == origin_label_spec(*self),
    {
        self.origin_label()
    }
}

/// Observable and safe failure modes for remote environment operations.
#[derive(Debug, Clone, PartialEq, Eq)]
pub enum RemoteEnvironmentError {
    EnvironmentNotFound(String),
    AuthenticationFailed { env: String, reason: String },
    Unreachable { env: String, endpoint: String, error: String },
    ExecutionTimeout { env: String, timeout_secs: u64 },
    SafeFileTransferRejected { file: String, reason: String },
}

/// The message that describes an error.
pub open spec fn error_message(e: RemoteEnvironmentError) -> Seq<char> {
    match e {
        RemoteEnvironmentError::EnvironmentNotFound(name) => "remote environment not found: '"@
            + name@ + "'"@,
        RemoteEnvironmentError::AuthenticationFailed { env, reason } =>
            "authentication failed for remote environment '"@ + env@ + "': "@ + reason@,
        RemoteEnvironmentError::Unreachable { env, endpoint, error } => "remote environment '"@
            + env@ + "' at '"@ + endpoint@ + "' is unreachable: "@ + error@,
        RemoteEnvironmentError::ExecutionTimeout { env, timeout_secs } =>
            "remote execution in '"@ + env@ + "' timed out after "@ + decimal(timeout_secs as nat)
            + "s"@,
        RemoteEnvironmentError::SafeFileTransferRejected { file, reason } =>
            "remote file operation rejected for '"@ + file@ + "': "@ + reason@,
    }
}

impl RemoteEnvironmentError {
    /// The human-readable message of the error.
    pub fn to_string(&self) -> (r: String)
        ensures
            r@ == error_message(*self),
    {
        match self {
            RemoteEnvironmentError::EnvironmentNotFound(name) => {
                let mut s = owned("remote environment not found: '");
                s.append(name.as_str());
                s.append("'");
                s
            },
            RemoteEnvironmentError::AuthenticationFailed { env, reason } => {
                let mut s = owned("authentication failed for remote environment '");
                s.append(env.as_str());
                s.append("': ");
                s.append(reason.as_str());
                s
            },
            RemoteEnvironmentError::Unreachable { env, endpoint, error } => {
                let mut s = owned("remote environment '");
                s.append(env.as_str());
                s.append("' at '");
                s.append(endpoint.as_str());
                s.append("' is unreachable: ");
                s.append(error.as_str());
                s
            },
            RemoteEnvironmentError::ExecutionTimeout { env, timeout_secs } => {
                let mut s = owned("remote execution in '");
                s.append(env.as_str());
                s.append("' timed out after ");
                push_decimal(*timeout_secs, &mut s);
                s.append("s");
                s
            },
            RemoteEnvironmentError::SafeFileTransferRejected { file, reason } => {
                let mut s = owned("remote file operation rejected for '");
                s.append(file.as_str());
                s.append("': ");
                s.append(reason.as_str());
                s
            },
        }
    }
}

/// What `{:?}` prints for a string: the string quoted, with escapes.
pub uninterp spec fn str_debug_repr(s: Seq<char>) -> Seq<char>;

/// A character that `{:?}` prints unchanged inside a quoted string:
/// printable ASCII other than `"` and `\`.
pub open spec fn plain_debug_char(c: char) -> bool {
    0x20 <= (c as u32) <= 0x7E && c != '"' && c != '\\'
}

/// `<str as Debug>::fmt`, through `format!("{:?}", ..)`.
/// Claimed: the result is a function of the characters of `s` alone, and a
/// string of printable ASCII without `"` or `\` comes back between quotes,
/// unchanged (`char::escape_debug` leaves such characters as they are).
#[verifier::external_body]
fn debug_str(s: &str) -> (r: String)
    ensures
        r@ == str_debug_repr(s@),
        (forall|i: int| 0 <= i < s@.len() ==> #[trigger] plain_debug_char(s@[i])) ==> r@
            == seq!['"'] + s@ + seq!['"'],
{
    format!("{:?}", s)
}

/// The entry of key `k` of `m` as `{:?}` prints it: `key: value`, both quoted.
pub open spec fn entry_text(m: Map<String, String>, k: String) -> Seq<char> {
    str_debug_repr(k@) + ": "@ + str_debug_repr(m[k]@)
}

/// The entries of `m` for `keys`, in that order, separated by `, `.
pub open spec fn entries_text(m: Map<String, String>, keys: Seq<String>) -> Seq<char>
    decreases keys.len(),
{
    if keys.len() == 0 {
        Seq::empty()
    } else if keys.len() == 1 {
        entry_text(m, keys[0])
    } else {
        entries_text(m, keys.drop_last()) + ", "@ + entry_text(m, keys.last())
    }
}

/// `keys` lists every key of `m` once: an order in which `m` can be walked.
pub open spec fn is_walk_order(m: Map<String, String>, keys: Seq<String>) -> bool {
    keys.no_duplicates() && keys.to_set() == m.dom()
}

/// The text `{:?}` prints for `m` when walked in the order `keys`: `{`,
/// the entries separated by `, `, then `}` (an empty map is `{}`).
pub open spec fn map_debug_text(m: Map<String, String>, keys: Seq<String>) -> Seq<char> {
    "{"@ + entries_text(m, keys) + "}"@
}

/// `t` is what `{:?}` prints for `m` walked in some order.
pub open spec fn is_map_debug_text(m: Map<String, String>, t: Seq<char>) -> bool {
    exists|keys: Seq<String>| is_walk_order(m, keys) && t == map_debug_text(m, keys)
}

/// `<HashMap<String, String> as Debug>::fmt`, through `format!("{:?}", ..)`.
/// Claimed: the text is `{`, each entry once as `key: value` with both
/// quoted as `{:?}` quotes a string, separated by `, `, then `}`. Which order
/// the entries come in is not claimed: it is the order in which the map is
/// walked, which depends on a hasher seeded per process.
#[verifier::external_body]
fn debug_string_map(m: &HashMap<String, String>) -> (r: String)
    ensures
        is_map_debug_text(m@, r@),
{
    format!("{:?}", m)
}

/// The variant name of a transport, as `{:?}` prints it.
pub open spec fn transport_debug_name(t: RemoteTransport) -> Seq<char> {
    match t {
        RemoteTransport::Ssh => "Ssh"@,
        RemoteTransport::Gateway => "Gateway"@,
        RemoteTransport::Bridge => "Bridge"@,
    }
}

/// `true` or `false`.
pub open spec fn bool_text(b: bool) -> Seq<char> {
    if b {
        "true"@
    } else {
        "false"@
    }
}

/// `None`, or `Some(` the text `)`.
pub open spec fn option_text(o: Option<Seq<char>>) -> Seq<char> {
    match o {
        None => "None"@,
        Some(t) => "Some("@ + t + ")"@,
    }
}

/// The debug text of a configuration, given the debug texts of its name,
/// endpoint, working directory, environment map, and of the word that
/// stands in for a token.
pub open spec fn config_debug_layout(
    c: RemoteEnvironmentConfig,
    name_text: Seq<char>,
    endpoint_text: Seq<char>,
    cwd_text: Option<Seq<char>>,
    env_text: Seq<char>,
    redacted_text: Seq<char>,
) -> Seq<char> {
    "RemoteEnvironmentConfig { name: "@ + name_text + ", endpoint: "@ + endpoint_text
        + ", transport: "@ + transport_debug_name(c.transport) + ", remote_cwd: "@ + option_text(
        cwd_text,
    ) + ", env: "@ + env_text + ", auth_token: "@ + option_text(
        if c.auth_token is Some {
            Some(redacted_text)
        } else {
            None
        },
    ) + ", timeout_secs: "@ + decimal(c.timeout_secs as nat) + ", enabled: "@ + bool_text(
        c.enabled,
    ) + " }"@
}

/// The redacted debug text of a configuration whose environment map is
/// walked in the order `keys`. The token enters only through whether one is
/// set: it is shown as `"<redacted>"`.
pub open spec fn config_debug_text(c: RemoteEnvironmentConfig, keys: Seq<String>) -> Seq<char> {
    config_debug_layout(
        c,
        str_debug_repr(c.name@),
        str_debug_repr(c.endpoint@),
        match c.remote_cwd {
            Some(d) => Some(str_debug_repr(d@)),
            None => None,
        },
        map_debug_text(c.env@, keys),
        "\"<redacted>\""@,
    )
}

fn append_option_text(s: &mut String, o: Option<&str>)
    ensures
        final(s)@ == old(s)@ + option_text(
            match o {
                Some(t) => Some(t@),
                None => None,
            },
        ),
{
    match o {
        None => s.append("None"),
        Some(t) => {
            s.append("Some(");
            s.append(t);
            s.append(")");
        },
    }
}

/// Lays out the debug text of a configuration from the debug texts of its
/// parts; the token itself is never read, only whether one is set.
pub fn compose_config_debug(
    c: &RemoteEnvironmentConfig,
    name_text: &str,
    endpoint_text: &str,
    cwd_text: Option<&str>,
    env_text: &str,
    redacted_text: &str,
) -> (r: String)
    ensures
        r@ == config_debug_layout(
            *c,
            name_text@,
            endpoint_text@,
            match cwd_text {
                Some(t) => Some(t@),
                None => None,
            },
            env_text@,
            redacted_text@,
        ),
{
    let mut s = owned("RemoteEnvironmentConfig { name: ");
    s.append(name_text);
    s.append(", endpoint: ");
    s.append(endpoint_text);
    s.append(", transport: ");
    match c.transport {
        RemoteTransport::Ssh => s.append("Ssh"),
        RemoteTransport::Gateway => s.append("Gateway"),
        RemoteTransport::Bridge => s.append("Bridge"),
    }
    s.append(", remote_cwd: ");
    append_option_text(&mut s, cwd_text);
    s.append(", env: ");
    s.append(env_text);
    s.append(", auth_token: ");
    match c.auth_token {
        Some(_) => append_option_text(&mut s, Some(redacted_text)),
        None => append_option_text(&mut s, None),
    }
    s.append(", timeout_secs: ");
    push_decimal(c.timeout_secs, &mut s);
    s.append(", enabled: ");
    if c.enabled {
        s.append("true");
    } else {
        s.append("false");
    }
    s.append(" }");
    let ghost cwd = match cwd_text {
        Some(t) => Some(t@),
        None => None,
    };
    assert(s@ =~= config_debug_layout(
        *c,
        name_text@,
        endpoint_text@,
        cwd,
        env_text@,
        redacted_text@,
    ));
    s
}

impl RemoteEnvironmentConfig {
    /// A configuration with the given name and endpoint, the gateway
    /// transport, no working directory, no variables, no token, the
    /// default timeout, and enabled.
    pub fn new(name: &str, endpoint: &str) -> (r: Self)
        ensures
            r.name@ == name@,
            r.endpoint@ == endpoint@,
            r.transport == RemoteTransport::Gateway,
            r.remote_cwd is None,
            r.env@ == Map::<String, String>::empty(),
            r.auth_token is None,
            r.timeout_secs == 30,
            r.enabled,
    {
        RemoteEnvironmentConfig {
            name: owned(name),
            endpoint: owned(endpoint),
            transport: RemoteTransport::default(),
            remote_cwd: None,
            env: HashMap::new(),
            auth_token: None,
            timeout_secs: default_timeout_secs(),
            enabled: default_true(),
        }
    }

    /// The same configuration with the given transport.
    pub fn with_transport(self, transport: RemoteTransport) -> (r: Self)
        ensures
            r == (RemoteEnvironmentConfig { transport: transport, ..self }),
    {
        let mut c = self;
        c.transport = transport;
        c
    }

    /// The same configuration with the given remote working directory.
    pub fn with_cwd(self, cwd: &str) -> (r: Self)
        ensures
            r == (RemoteEnvironmentConfig { remote_cwd: r.remote_cwd, ..self }),
            r.remote_cwd matches Some(c) && c@ == cwd@,
    {
        let mut c = self;
        c.remote_cwd = Some(owned(cwd));
        c
    }

    /// The same configuration with the given authorization token.
    pub fn with_auth_token(self, token: &str) -> (r: Self)
        ensures
            r == (RemoteEnvironmentConfig { auth_token: r.auth_token, ..self }),
            r.auth_token matches Some(t) && t@ == token@,
    {
        let mut c = self;
        c.auth_token = Some(owned(token));
        c
    }

    /// Origin label formatted for status and history projection: the label
    /// of a remote origin named after this environment.
    pub fn origin_label(&self) -> (r: String)
        ensures
            r@ == origin_label_spec(SessionOrigin::Remote(self.name)),
            r@ == "remote:"@ + self.name@,
    {
        let origin = SessionOrigin::Remote(self.name.clone());
        origin.origin_label()
    }

    /// The debug text of the configuration with the authorization token
    /// replaced by `<redacted>`. The environment map is printed as `{:?}`
    /// prints it, so its entries come in the order in which it is walked.
    pub fn redacted_debug(&self) -> (r: String)
        ensures
            exists|keys: Seq<String>|
                is_walk_order(self.env@, keys) && r@ == config_debug_text(*self, keys),
    {
        let name_text = debug_str(self.name.as_str());
        let endpoint_text = debug_str(self.endpoint.as_str());
        let cwd_text = match &self.remote_cwd {
            Some(d) => Some(debug_str(d.as_str())),
            None => None,
        };
        let env_text = debug_string_map(&self.env);
        let redacted_text = debug_str("<redacted>");
        proof {
            reveal_strlit("<redacted>");
            reveal_strlit("\"<redacted>\"");
            assert(forall|i: int|
                0 <= i < "<redacted>"@.len() ==> #[trigger] plain_debug_char("<redacted>"@[i]));
            assert(redacted_text@ =~= "\"<redacted>\""@);
        }
        let ghost keys = choose|keys: Seq<String>|
            is_walk_order(self.env@, keys) && env_text@ == map_debug_text(self.env@, keys);
        let cwd_ref: Option<&str> = match &cwd_text {
            Some(t) => Some(t.as_str()),
            None => None,
        };
        let r = compose_config_debug(
            self,
            name_text.as_str(),
            endpoint_text.as_str(),
            cwd_ref,
            env_text.as_str(),
            redacted_text.as_str(),
        );
        assert(r@ == config_debug_text(*self, keys));
        r
    }
}

/// Law: the local origin is labelled `local`, a remote one `remote:` and
/// the environment's name; two origins with one label are both local or
/// both remote with the same name.
pub proof fn lemma_origin_labels(a: SessionOrigin, b: SessionOrigin)
    ensures
        origin_label_spec(SessionOrigin::Local) == "local"@,
        (a matches SessionOrigin::Remote(n) ==> origin_label_spec(a) == "remote:"@ + n@),
        origin_label_spec(a) == origin_label_spec(b) ==> (a is Local <==> b is Local)
            && origin_name_spec(a) == origin_name_spec(b),
{
    reveal_strlit("local");
    reveal_strlit("remote:");
    if origin_label_spec(a) == origin_label_spec(b) {
        match (a, b) {
            (SessionOrigin::Remote(x), SessionOrigin::Remote(y)) => {
                assert(x@ =~= origin_label_spec(a).subrange(7, origin_label_spec(a).len() as int));
                assert(y@ =~= origin_label_spec(b).subrange(7, origin_label_spec(b).len() as int));
            },
            (SessionOrigin::Local, SessionOrigin::Local) => {},
            _ => {
                assert(origin_label_spec(a).len() != origin_label_spec(b).len());
            },
        }
    }
}

/// Law: each transport prints as its variant name, `Ssh`, `Gateway` or
/// `Bridge`, and different transports print differently.
pub proof fn lemma_transport_names(a: RemoteTransport, b: RemoteTransport)
    ensures
        transport_debug_name(RemoteTransport::Ssh) == "Ssh"@,
        transport_debug_name(RemoteTransport::Gateway) == "Gateway"@,
        transport_debug_name(RemoteTransport::Bridge) == "Bridge"@,
        a != b ==> transport_debug_name(a) != transport_debug_name(b),
{
    reveal_strlit("Ssh");
    reveal_strlit("Gateway");
    reveal_strlit("Bridge");
    assert(transport_debug_name(a).len() != transport_debug_name(b).len() || a == b);
}

/// Law: two configurations that differ only in their transport have
/// different debug texts, whatever order their environment map is walked in.
pub proof fn lemma_debug_text_tells_transports(
    a: RemoteEnvironmentConfig,
    b: RemoteEnvironmentConfig,
    keys: Seq<String>,
)
    requires
        b == (RemoteEnvironmentConfig { transport: b.transport, ..a }),
        a.transport != b.transport,
    ensures
        config_debug_text(a, keys) != config_debug_text(b, keys),
{
    lemma_transport_names(a.transport, b.transport);
    reveal_strlit("Ssh");
    reveal_strlit("Gateway");
    reveal_strlit("Bridge");
    assert(transport_debug_name(a.transport).len() != transport_debug_name(b.transport).len());
    assert(config_debug_text(a, keys).len() != config_debug_text(b, keys).len());
}

/// Law: two configurations that differ only in whether they are enabled,
/// or only in their timeout, have different debug texts, whatever order
/// their environment map is walked in.
pub proof fn lemma_debug_text_tells_enabled_and_timeout(
    a: RemoteEnvironmentConfig,
    b: RemoteEnvironmentConfig,
    keys: Seq<String>,
)
    requires
        b == (RemoteEnvironmentConfig { enabled: b.enabled, timeout_secs: b.timeout_secs, ..a }),
        a.enabled != b.enabled || a.timeout_secs != b.timeout_secs,
    ensures
        config_debug_text(a, keys) != config_debug_text(b, keys),
{
    reveal_strlit("true");
    reveal_strlit("false");
    reveal_strlit(", enabled: ");
    reveal_strlit(" }");
    let ta = config_debug_text(a, keys);
    let tb = config_debug_text(b, keys);
    let da = decimal(a.timeout_secs as nat);
    let db = decimal(b.timeout_secs as nat);
    let ea = ", enabled: "@ + bool_text(a.enabled) + " }"@;
    let eb = ", enabled: "@ + bool_text(b.enabled) + " }"@;
    let pre = ta.subrange(0, ta.len() - da.len() - ea.len());
    assert(ta =~= pre + da + ea);
    assert(tb =~= pre + db + eb);
    if ta == tb {
        if da.len() == db.len() {
            assert(ea =~= ta.subrange(ta.len() - ea.len(), ta.len() as int));
            assert(eb =~= tb.subrange(tb.len() - eb.len(), tb.len() as int));
            assert(bool_text(a.enabled) =~= ea.subrange(11, ea.len() - 2));
            assert(bool_text(b.enabled) =~= eb.subrange(11, eb.len() - 2));
            assert(a.enabled == b.enabled);
            assert(da =~= ta.subrange(pre.len() as int, (pre.len() + da.len()) as int));
            assert(db =~= tb.subrange(pre.len() as int, (pre.len() + db.len()) as int));
            lemma_decimal_reads_back(a.timeout_secs as nat);
            lemma_decimal_reads_back(b.timeout_secs as nat);
        } else {
            lemma_decimal_reads_back(a.timeout_secs as nat);
            lemma_decimal_reads_back(b.timeout_secs as nat);
            if da.len() < db.len() {
                let k: int = (pre.len() + da.len()) as int;
                assert(ta[k] == ea[0]);
                assert(tb[k] == db[da.len() as int]);
                assert(48 <= (db[da.len() as int] as u32) <= 57);
            } else {
                let k: int = (pre.len() + db.len()) as int;
                assert(tb[k] == eb[0]);
                assert(ta[k] == da[db.len() as int]);
                assert(48 <= (da[db.len() as int] as u32) <= 57);
            }
        }
    }
}

/// Law: the debug text shows whether a token is set: a configuration
/// without one prints `auth_token: None`, and differs from the same
/// configuration with a token.
pub proof fn lemma_debug_text_tells_token_set(
    a: RemoteEnvironmentConfig,
    b: RemoteEnvironmentConfig,
    keys: Seq<String>,
)
    requires
        b == (RemoteEnvironmentConfig { auth_token: b.auth_token, ..a }),
        a.auth_token is None,
        b.auth_token is Some,
    ensures
        config_debug_text(a, keys) != config_debug_text(b, keys),
        option_text(None) == "None"@,
{
    reveal_strlit("None");
    reveal_strlit("Some(");
    assert(config_debug_text(a, keys).len() != config_debug_text(b, keys).len());
}

/// Law: the redacted debug text does not depend on the token's value: two
/// configurations that differ only in which token they hold print alike for
/// every order of walking their environment map, and a set token shows as
/// `Some("<redacted>")`.
pub proof fn lemma_debug_text_hides_token(
    a: RemoteEnvironmentConfig,
    b: RemoteEnvironmentConfig,
    keys: Seq<String>,
)
    requires
        a.auth_token is Some,
        b.auth_token is Some,
        b == (RemoteEnvironmentConfig { auth_token: b.auth_token, ..a }),
    ensures
        config_debug_text(a, keys) == config_debug_text(b, keys),
        config_debug_text(a, keys) == config_debug_layout(
            a,
            str_debug_repr(a.name@),
            str_debug_repr(a.endpoint@),
            match a.remote_cwd {
                Some(d) => Some(str_debug_repr(d@)),
                None => None,
            },
            map_debug_text(a.env@, keys),
            "\"<redacted>\""@,
        ),
{
}

} // verus!
