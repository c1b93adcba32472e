//! Single-instance activation: configuration, URI argument filtering, the names of the
//! instance lock and the IPC channel, and the line format of forwarded URIs.
use vstd::prelude::*;
use vstd::string::StrSliceExecFns;
use vstd::string::StringExecFns;

use std::path::PathBuf;
use sysuri::UriScheme;

use crate::ecs::owned;
use crate::text::{contains_seq, is_white_space, push_char, str_contains, trim, trimmed, trim_back, trim_front};

verus! {

#[verifier::external_type_specification]
#[verifier::external_body]
pub struct ExPathBuf(PathBuf);

#[verifier::external_type_specification]
#[verifier::external_body]
pub struct ExIoError(std::io::Error);

#[verifier::external_type_specification]
#[verifier::external_body]
pub struct ExSysuriError(sysuri::Error);

#[verifier::external_type_specification]
#[verifier::external_body]
pub struct ExUriScheme(UriScheme);

/// Why activation could not be set up.
#[derive(Debug)]
pub enum ActivationError {
    InvalidConfig(String),
    Io(std::io::Error),
    Protocol(sysuri::Error),
    SingleInstance(String),
}

impl From<std::io::Error> for ActivationError {
    fn from(value: std::io::Error) -> (error: Self) {
        ActivationError::Io(value)
    }
}

impl vstd::std_specs::convert::FromSpecImpl<std::io::Error> for ActivationError {
    open spec fn obeys_from_spec() -> bool {
        true
    }

    open spec fn from_spec(v: std::io::Error) -> Self {
        ActivationError::Io(v)
    }
}

impl From<sysuri::Error> for ActivationError {
    fn from(value: sysuri::Error) -> (error: Self) {
        ActivationError::Protocol(value)
    }
}

impl vstd::std_specs::convert::FromSpecImpl<sysuri::Error> for ActivationError {
    open spec fn obeys_from_spec() -> bool {
        true
    }

    open spec fn from_spec(v: sysuri::Error) -> Self {
        ActivationError::Protocol(v)
    }
}

/// A custom URI scheme to register for the application.
#[derive(Debug, Clone)]
pub struct ProtocolRegistration {
    pub scheme: String,
    pub description: String,
    /// Handler executable; the running executable when absent.
    pub executable: Option<PathBuf>,
    pub icon: Option<PathBuf>,
}

impl ProtocolRegistration {
    #[must_use]
    pub fn new(scheme: &str, description: &str, executable: Option<PathBuf>) -> (registration: Self)
        ensures
            registration.scheme@ == scheme@,
            registration.description@ == description@,
            registration.executable == executable,
            registration.icon is None,
    {
        Self { scheme: owned(scheme), description: owned(description), executable, icon: None }
    }

    #[must_use]
    pub fn with_icon(self, icon: PathBuf) -> (registration: Self)
        ensures
            registration.icon == Some(icon),
            registration.scheme == self.scheme,
            registration.description == self.description,
            registration.executable == self.executable,
    {
        let mut registration = self;
        registration.icon = Some(icon);
        registration
    }
}

/// What the application asks of activation: its id and an optional URI scheme.
#[derive(Debug, Clone)]
pub struct ActivationConfig {
    pub app_id: String,
    pub protocol: Option<ProtocolRegistration>,
}

impl ActivationConfig {
    #[must_use]
    pub fn new(app_id: &str) -> (config: Self)
        ensures
            config.app_id@ == app_id@,
            config.protocol is None,
    {
        Self { app_id: owned(app_id), protocol: None }
    }

    #[must_use]
    pub fn with_protocol(self, protocol: ProtocolRegistration) -> (config: Self)
        ensures
            config.app_id == self.app_id,
            config.protocol == Some(protocol),
    {
        let mut config = self;
        config.protocol = Some(protocol);
        config
    }
}

/// `c` is an ASCII letter.
pub open spec fn is_ascii_alphabetic(c: char) -> bool {
    (65 <= c as u32 <= 90) || (97 <= c as u32 <= 122)
}

/// `c` is an ASCII letter or digit.
pub open spec fn is_ascii_alphanumeric(c: char) -> bool {
    is_ascii_alphabetic(c) || (48 <= c as u32 <= 57)
}

/// The character an app id character becomes in file and socket names: ASCII letters
/// and digits in lower case, everything else `-`.
pub open spec fn app_id_char(c: char) -> char {
    if 65 <= c as u32 <= 90 {
        (c as u32 + 32) as char
    } else if is_ascii_alphanumeric(c) {
        c
    } else {
        '-'
    }
}

/// An app id with every character replaced by [`app_id_char`].
pub open spec fn normalized_app_id(app_id: Seq<char>) -> Seq<char> {
    app_id.map_values(|c: char| app_id_char(c))
}

fn normalize_char(c: char) -> (n: char)
    ensures
        n == app_id_char(c),
{
    let u = c as u32;
    if 65 <= u && u <= 90 {
        let lower = (u + 32) as u8;
        lower as char
    } else if (97 <= u && u <= 122) || (48 <= u && u <= 57) {
        c
    } else {
        '-'
    }
}

/// Lower-case ASCII letters and digits of `app_id`, with every other character turned into
/// `-`.
pub fn normalize_app_id(app_id: &str) -> (normalized: String)
    ensures
        normalized@ == normalized_app_id(app_id@),
{
    let n = app_id.unicode_len();
    let mut normalized = String::new();
    let mut i: usize = 0;
    while i < n
        invariant
            n == app_id@.len(),
            i <= n,
            normalized@ == normalized_app_id(app_id@.take(i as int)),
        decreases n - i,
    {
        let c = normalize_char(app_id.get_char(i));
        push_char(&mut normalized, c);
        assert(normalized_app_id(app_id@.take(i as int + 1)) =~= normalized_app_id(app_id@.take(i as int)).push(
            app_id_char(app_id@[i as int]),
        ));
        i = i + 1;
    }
    assert(app_id@.take(n as int) =~= app_id@);
    normalized
}

/// Normalizing an already normalized id changes nothing.
pub proof fn lemma_normalize_idempotent(app_id: Seq<char>)
    ensures
        normalized_app_id(normalized_app_id(app_id)) == normalized_app_id(app_id),
{
    assert(normalized_app_id(normalized_app_id(app_id)) =~= normalized_app_id(app_id));
}

/// Name of the single-instance lock for `app_id` (the normalized id itself).
pub fn single_instance_name(app_id: &str) -> (name: String)
    ensures
        name@ == normalized_app_id(app_id@),
{
    normalize_app_id(app_id)
}

/// Name of the thread that listens for forwarded URIs.
pub fn listener_thread_name(app_id: &str) -> (name: String)
    ensures
        name@ == normalized_app_id(app_id@) + "-activation-listener"@,
{
    let mut name = normalize_app_id(app_id);
    name.append("-activation-listener");
    name
}

/// Token naming the IPC endpoint of `app_id`, as a namespaced socket name or as the stem
/// of a socket file.
pub fn ipc_token_for_app(app_id: &str) -> (token: String)
    ensures
        token@ == normalized_app_id(app_id@) + ".activation"@,
{
    let mut token = normalize_app_id(app_id);
    token.append(".activation");
    token
}

/// Reject a configuration whose app id is blank.
pub fn validate_config(config: &ActivationConfig) -> (result: Result<(), ActivationError>)
    ensures
        match result {
            Ok(()) => trimmed(config.app_id@).len() > 0,
            Err(error) => trimmed(config.app_id@).len() == 0 && (error matches ActivationError::InvalidConfig(
                reason,
            ) && reason@ == "app_id cannot be empty"@),
        },
{
    let app_id = trim(config.app_id.as_str());
    if app_id.as_str().unicode_len() == 0 {
        return Err(ActivationError::InvalidConfig(owned("app_id cannot be empty")));
    }
    Ok(())
}

/// The separator that marks an argument as a URI.
pub open spec fn uri_marker() -> Seq<char> {
    seq![':', '/', '/']
}

/// The trimmed arguments that contain `://`, in order.
pub open spec fn activation_uris(args: Seq<Seq<char>>) -> Seq<Seq<char>>
    decreases args.len(),
{
    if args.len() == 0 {
        Seq::empty()
    } else {
        let rest = activation_uris(args.drop_last());
        let arg = trimmed(args.last());
        if contains_seq(arg, uri_marker()) {
            rest.push(arg)
        } else {
            rest
        }
    }
}

/// The views of a list of strings.
pub open spec fn string_views(values: Seq<String>) -> Seq<Seq<char>> {
    values.map_values(|s: String| s@)
}

/// Keep the command-line arguments that look like URIs (contain `://`), trimmed.
pub fn collect_activation_uris(args: Vec<String>) -> (uris: Vec<String>)
    ensures
        string_views(uris@) == activation_uris(string_views(args@)),
{
    proof {
        reveal_strlit("://");
        assert("://"@ =~= uri_marker());
    }
    let mut uris: Vec<String> = Vec::new();
    let mut i: usize = 0;
    while i < args.len()
        invariant
            i <= args.len(),
            "://"@ == uri_marker(),
            string_views(uris@) == activation_uris(string_views(args@.take(i as int))),
        decreases args.len() - i,
    {
        let arg = trim(args[i].as_str());
        let ghost prefix = string_views(args@.take(i as int + 1));
        assert(prefix.drop_last() =~= string_views(args@.take(i as int)));
        assert(prefix.last() == args@[i as int]@);
        if str_contains(arg.as_str(), "://") {
            let ghost before = uris@;
            uris.push(arg);
            assert(string_views(uris@) =~= string_views(before).push(trimmed(args@[i as int]@)));
        }
        i = i + 1;
    }
    assert(args@.take(args.len() as int) =~= args@);
    uris
}

/// Every collected URI contains `://`, and only arguments were collected: there are never
/// more URIs than arguments.
pub proof fn lemma_collected_uris_are_uri_like(args: Seq<Seq<char>>)
    ensures
        activation_uris(args).len() <= args.len(),
        forall|i: int|
            0 <= i < activation_uris(args).len() ==> contains_seq(#[trigger] activation_uris(args)[i], uri_marker()),
    decreases args.len(),
{
    if args.len() > 0 {
        lemma_collected_uris_are_uri_like(args.drop_last());
    }
}

/// A valid URI scheme name (RFC 3986): an ASCII letter followed by ASCII letters, digits,
/// `+`, `-` or `.`.
pub open spec fn valid_scheme(scheme: Seq<char>) -> bool {
    &&& scheme.len() > 0
    &&& is_ascii_alphabetic(scheme[0])
    &&& forall|i: int|
        1 <= i < scheme.len() ==> (is_ascii_alphanumeric(#[trigger] scheme[i]) || scheme[i] == '+'
            || scheme[i] == '-' || scheme[i] == '.')
}

/// Whether `scheme` is a valid URI scheme name, as `UriScheme::is_valid_scheme` decides.
pub fn is_valid_scheme(scheme: &str) -> (valid: bool)
    ensures
        valid == valid_scheme(scheme@),
{
    let n = scheme.unicode_len();
    if n == 0 {
        return false;
    }
    let first = scheme.get_char(0) as u32;
    if !((65 <= first && first <= 90) || (97 <= first && first <= 122)) {
        return false;
    }
    let mut i: usize = 1;
    while i < n
        invariant
            n == scheme@.len(),
            1 <= i <= n,
            forall|k: int|
                1 <= k < i ==> (is_ascii_alphanumeric(#[trigger] scheme@[k]) || scheme@[k] == '+'
                    || scheme@[k] == '-' || scheme@[k] == '.'),
        decreases n - i,
    {
        let c = scheme.get_char(i);
        let u = c as u32;
        let ok = (65 <= u && u <= 90) || (97 <= u && u <= 122) || (48 <= u && u <= 57) || c == '+'
            || c == '-' || c == '.';
        if !ok {
            return false;
        }
        i = i + 1;
    }
    true
}

/// What `UriScheme::new` builds from a scheme, a description and an executable.
pub uninterp spec fn uri_scheme_of(scheme: Seq<char>, description: Seq<char>, executable: PathBuf) -> UriScheme;

/// What `UriScheme::with_icon` makes of a scheme registration and an icon.
pub uninterp spec fn uri_scheme_with_icon_of(scheme: UriScheme, icon: PathBuf) -> UriScheme;

/// Builds a registration with `sysuri::UriScheme::new`.
///
/// Claims: the result depends on the three arguments only.
#[verifier::external_body]
fn new_uri_scheme(scheme: String, description: String, executable: PathBuf) -> (registration: UriScheme)
    ensures
        registration == uri_scheme_of(scheme@, description@, executable),
{
    UriScheme::new(scheme, description, executable)
}

/// Adds an icon with `sysuri::UriScheme::with_icon`.
///
/// Claims: the result depends on the registration and the icon only.
#[verifier::external_body]
fn uri_scheme_with_icon(scheme: UriScheme, icon: PathBuf) -> (registration: UriScheme)
    ensures
        registration == uri_scheme_with_icon_of(scheme, icon),
{
    scheme.with_icon(icon)
}

/// The registration that `protocol` asks for, handled by `executable`.
pub open spec fn protocol_scheme_spec(protocol: ProtocolRegistration, executable: PathBuf) -> UriScheme {
    let base = uri_scheme_of(protocol.scheme@, protocol.description@, executable);
    match protocol.icon {
        Some(icon) => uri_scheme_with_icon_of(base, icon),
        None => base,
    }
}

/// Build the OS registration for `protocol`, refusing an invalid scheme name.
pub fn protocol_uri_scheme(protocol: ProtocolRegistration, executable: PathBuf) -> (result: Result<UriScheme, ActivationError>)
    ensures
        match result {
            Ok(scheme) => valid_scheme(protocol.scheme@) && scheme == protocol_scheme_spec(protocol, executable),
            Err(error) => !valid_scheme(protocol.scheme@) && (error matches ActivationError::InvalidConfig(
                reason,
            ) && reason@ == "scheme `"@ + protocol.scheme@ + "` is invalid"@),
        },
{
    if !is_valid_scheme(protocol.scheme.as_str()) {
        let mut reason = owned("scheme `");
        reason.append(protocol.scheme.as_str());
        reason.append("` is invalid");
        return Err(ActivationError::InvalidConfig(reason));
    }
    let ProtocolRegistration { scheme, description, executable: _, icon } = protocol;
    let base = new_uri_scheme(scheme, description, executable);
    match icon {
        Some(icon) => Ok(uri_scheme_with_icon(base, icon)),
        None => Ok(base),
    }
}

/// How many times a secondary instance tries to reach the primary before giving up.
pub const FORWARD_CONNECT_ATTEMPTS: u32 = 16;

/// Milliseconds a secondary instance waits between connection attempts.
pub const FORWARD_RETRY_DELAY_MS: u64 = 50;

/// What a secondary instance does after one connection attempt to the primary.
#[derive(Debug, Clone, Copy, PartialEq, Eq, Structural)]
pub enum ForwardStep {
    /// Connected: send the URIs and stop.
    Send,
    /// Not connected: wait, then try again.
    WaitAndRetry,
    /// Not connected: wait, then give up with the last connection error.
    WaitAndGiveUp,
}

/// The step after attempt number `attempt` (counting from zero): send when connected,
/// otherwise retry until [`FORWARD_CONNECT_ATTEMPTS`] attempts have been made.
pub open spec fn forward_step_spec(attempt: u32, connected: bool) -> ForwardStep {
    if connected {
        ForwardStep::Send
    } else if attempt + 1 < FORWARD_CONNECT_ATTEMPTS {
        ForwardStep::WaitAndRetry
    } else {
        ForwardStep::WaitAndGiveUp
    }
}

/// Decide what follows connection attempt number `attempt` (counting from zero).
pub fn forward_step(attempt: u32, connected: bool) -> (step: ForwardStep)
    ensures
        step == forward_step_spec(attempt, connected),
{
    if connected {
        ForwardStep::Send
    } else if attempt < FORWARD_CONNECT_ATTEMPTS - 1 {
        ForwardStep::WaitAndRetry
    } else {
        ForwardStep::WaitAndGiveUp
    }
}

/// Retrying never goes past the attempt budget: an attempt is retried only when another
/// one still fits in it.
pub proof fn lemma_forward_attempts_bounded(attempt: u32)
    ensures
        forward_step_spec(attempt, false) == ForwardStep::WaitAndRetry ==> attempt + 1 < FORWARD_CONNECT_ATTEMPTS,
        attempt + 1 >= FORWARD_CONNECT_ATTEMPTS ==> forward_step_spec(attempt, false) == ForwardStep::WaitAndGiveUp,
{
}

/// The bytes a secondary instance sends: every URI followed by a newline.
pub open spec fn activation_payload(uris: Seq<Seq<char>>) -> Seq<char>
    decreases uris.len(),
{
    if uris.len() == 0 {
        Seq::empty()
    } else {
        activation_payload(uris.drop_last()) + uris.last().push('\n')
    }
}

/// Frame forwarded URIs, one per line.
pub fn encode_activation_uris(uris: &Vec<String>) -> (payload: String)
    ensures
        payload@ == activation_payload(string_views(uris@)),
{
    let mut payload = String::new();
    let mut i: usize = 0;
    while i < uris.len()
        invariant
            i <= uris.len(),
            payload@ == activation_payload(string_views(uris@.take(i as int))),
        decreases uris.len() - i,
    {
        let ghost prefix = string_views(uris@.take(i as int + 1));
        assert(prefix.drop_last() =~= string_views(uris@.take(i as int)));
        payload.append(uris[i].as_str());
        push_char(&mut payload, '\n');
        i = i + 1;
    }
    assert(uris@.take(uris.len() as int) =~= uris@);
    payload
}

/// What the listener keeps of one received line: the trimmed line, unless it is blank.
pub open spec fn decoded_line(line: Seq<char>) -> Option<Seq<char>> {
    if trimmed(line).len() == 0 {
        None
    } else {
        Some(trimmed(line))
    }
}

/// Read one received line: the trimmed text, or nothing for a blank line.
pub fn decode_activation_line(line: &str) -> (uri: Option<String>)
    ensures
        match uri {
            Some(u) => decoded_line(line@) == Some(u@),
            None => decoded_line(line@) is None,
        },
{
    let text = trim(line);
    if text.as_str().unicode_len() == 0 {
        None
    } else {
        Some(text)
    }
}

/// A URI without surrounding whitespace comes back unchanged from its line.
pub proof fn lemma_line_round_trip(uri: Seq<char>)
    requires
        uri.len() > 0,
        !is_white_space(uri[0]),
        !is_white_space(uri.last()),
    ensures
        decoded_line(uri.push('\n')) == Some(uri),
{
    let line = uri.push('\n');
    assert(trim_front(line) == line);
    assert(line.drop_last() =~= uri);
    assert(is_white_space('\n'));
    assert(trim_back(line) == trim_back(uri));
    assert(trim_back(uri) == uri);
}

} // verus!
