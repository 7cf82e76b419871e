//! The control protocol: a tagged request envelope carrying the enclave's
//! boot configuration. The encoding is self-describing — a variant tag,
//! then the fields, each length-prefixed or fixed-width — so the enclave
//! can reject unknown variants without guessing at their shape.

use vstd::prelude::*;

use crate::config::{
    AwsCredentials, ConfigView, CredentialsView, SigningEndpointConfig, TransportKind,
    TransportView,
};
use crate::errors::ProtocolError;
use crate::wire::{
    dec_bytes, dec_u64, dec_u8, enc_bytes, enc_u64, enc_u8, lemma_dec_bytes, lemma_dec_u64,
    lemma_dec_u8, take_bytes, take_u64, take_u8, put_bytes, put_u64, put_u8,
};

verus! {

/// Variant tag of `ControlRequest::Start`.
pub const TAG_START: u8 = 1;

/// Kind tag of a TCP transport.
pub const TAG_TCP: u8 = 0;

/// Kind tag of a Unix-socket transport.
pub const TAG_UNIX: u8 = 1;

/// Tag of an absent optional field.
pub const TAG_NONE: u8 = 0;

/// Tag of a present optional field.
pub const TAG_SOME: u8 = 1;

/// The enclave control-plane operations. An open set: new variants extend
/// the tag space without touching the framing layer.
#[derive(Debug, PartialEq)]
pub enum ControlRequest {
    /// Hand the enclave its boot configuration.
    Start(SigningEndpointConfig),
}

/// Mathematical image of a `ControlRequest`.
pub ghost enum ControlRequestView {
    Start(ConfigView),
}

impl View for ControlRequest {
    type V = ControlRequestView;

    open spec fn view(&self) -> ControlRequestView {
        match self {
            ControlRequest::Start(c) => ControlRequestView::Start(c@),
        }
    }
}

/// The image of an optional buffer.
pub open spec fn opt_view(o: Option<Vec<u8>>) -> Option<Seq<u8>> {
    match o {
        Some(b) => Some(b@),
        None => None,
    }
}

// ---------------------------------------------------------------------------
// Spec-level encoding.
// ---------------------------------------------------------------------------

pub open spec fn enc_opt_u64(o: Option<u64>) -> Seq<u8> {
    match o {
        None => enc_u8(TAG_NONE),
        Some(x) => enc_u8(TAG_SOME) + enc_u64(x),
    }
}

pub open spec fn enc_opt_bytes(o: Option<Seq<u8>>) -> Seq<u8> {
    match o {
        None => enc_u8(TAG_NONE),
        Some(b) => enc_u8(TAG_SOME) + enc_bytes(b),
    }
}

pub open spec fn enc_transport(t: TransportView) -> Seq<u8> {
    match t {
        TransportView::Tcp { host, port, peer_id } => enc_u8(TAG_TCP) + enc_bytes(host) + enc_u64(
            port as u64,
        ) + enc_opt_bytes(peer_id),
        TransportView::Unix { path } => enc_u8(TAG_UNIX) + enc_bytes(path),
    }
}

pub open spec fn enc_credentials(c: CredentialsView) -> Seq<u8> {
    enc_bytes(c.aws_key_id) + enc_bytes(c.aws_secret_key) + enc_bytes(c.aws_session_token)
}

pub open spec fn enc_config(c: ConfigView) -> Seq<u8> {
    enc_bytes(c.chain_id) + enc_opt_u64(c.max_height) + enc_bytes(c.sealed_consensus_key)
        + enc_opt_bytes(c.sealed_id_key) + enc_opt_bytes(c.peer_id) + enc_u64(
        c.enclave_state_port as u64,
    ) + enc_transport(c.transport) + enc_credentials(c.credentials) + enc_bytes(c.aws_region)
}

/// The full encoding of a request: its variant tag, then its fields.
pub open spec fn spec_encode_request(r: ControlRequestView) -> Seq<u8> {
    match r {
        ControlRequestView::Start(c) => enc_u8(TAG_START) + enc_config(c),
    }
}

// ---------------------------------------------------------------------------
// Spec-level parsing. Each parser consumes a prefix and returns the value
// with the unconsumed remainder, or `None` on malformed input.
// ---------------------------------------------------------------------------

pub open spec fn dec_opt_u64(s: Seq<u8>) -> Option<(Option<u64>, Seq<u8>)> {
    match dec_u8(s) {
        None => None,
        Some((t, r)) => if t == TAG_NONE {
            Some((None, r))
        } else if t == TAG_SOME {
            match dec_u64(r) {
                None => None,
                Some((x, r2)) => Some((Some(x), r2)),
            }
        } else {
            None
        },
    }
}

pub open spec fn dec_opt_bytes(s: Seq<u8>) -> Option<(Option<Seq<u8>>, Seq<u8>)> {
    match dec_u8(s) {
        None => None,
        Some((t, r)) => if t == TAG_NONE {
            Some((None, r))
        } else if t == TAG_SOME {
            match dec_bytes(r) {
                None => None,
                Some((b, r2)) => Some((Some(b), r2)),
            }
        } else {
            None
        },
    }
}

pub open spec fn dec_transport(s: Seq<u8>) -> Option<(TransportView, Seq<u8>)> {
    match dec_u8(s) {
        None => None,
        Some((t, r)) => if t == TAG_TCP {
            match dec_bytes(r) {
                None => None,
                Some((host, r2)) => match dec_u64(r2) {
                    None => None,
                    Some((port, r3)) => if port <= u16::MAX {
                        match dec_opt_bytes(r3) {
                            None => None,
                            Some((peer_id, r4)) => Some(
                                (TransportView::Tcp { host, port: port as u16, peer_id }, r4),
                            ),
                        }
                    } else {
                        None
                    },
                },
            }
        } else if t == TAG_UNIX {
            match dec_bytes(r) {
                None => None,
                Some((path, r2)) => Some((TransportView::Unix { path }, r2)),
            }
        } else {
            None
        },
    }
}

pub open spec fn dec_credentials(s: Seq<u8>) -> Option<(CredentialsView, Seq<u8>)> {
    match dec_bytes(s) {
        None => None,
        Some((key, r)) => match dec_bytes(r) {
            None => None,
            Some((secret, r2)) => match dec_bytes(r2) {
                None => None,
                Some((token, r3)) => Some(
                    (
                        CredentialsView {
                            aws_key_id: key,
                            aws_secret_key: secret,
                            aws_session_token: token,
                        },
                        r3,
                    ),
                ),
            },
        },
    }
}

pub open spec fn dec_config(s: Seq<u8>) -> Option<(ConfigView, Seq<u8>)> {
    match dec_bytes(s) {
        None => None,
        Some((chain_id, r1)) => match dec_opt_u64(r1) {
            None => None,
            Some((max_height, r2)) => match dec_bytes(r2) {
                None => None,
                Some((sealed_consensus_key, r3)) => match dec_opt_bytes(r3) {
                    None => None,
                    Some((sealed_id_key, r4)) => match dec_opt_bytes(r4) {
                        None => None,
                        Some((peer_id, r5)) => match dec_u64(r5) {
                            None => None,
                            Some((port, r6)) => if port <= u32::MAX {
                                match dec_transport(r6) {
                                    None => None,
                                    Some((transport, r7)) => match dec_credentials(r7) {
                                        None => None,
                                        Some((credentials, r8)) => match dec_bytes(r8) {
                                            None => None,
                                            Some((aws_region, r9)) => Some(
                                                (
                                                    ConfigView {
                                                        chain_id,
                                                        max_height,
                                                        sealed_consensus_key,
                                                        sealed_id_key,
                                                        peer_id,
                                                        enclave_state_port: port as u32,
                                                        transport,
                                                        credentials,
                                                        aws_region,
                                                    },
                                                    r9,
                                                ),
                                            ),
                                        },
                                    },
                                }
                            } else {
                                None
                            },
                        },
                    },
                },
            },
        },
    }
}

/// Parses one whole request message: the tag chooses the variant, the
/// fields must parse, and nothing may trail them.
pub open spec fn spec_decode_request(s: Seq<u8>) -> Result<ControlRequestView, ProtocolError> {
    match dec_u8(s) {
        None => Err(ProtocolError::MalformedPayload),
        Some((tag, r)) => if tag == TAG_START {
            match dec_config(r) {
                None => Err(ProtocolError::MalformedPayload),
                Some((c, rest)) => if rest.len() == 0 {
                    Ok(ControlRequestView::Start(c))
                } else {
                    Err(ProtocolError::MalformedPayload)
                },
            }
        } else {
            Err(ProtocolError::UnknownVariant)
        },
    }
}

// ---------------------------------------------------------------------------
// Round-trip lemmas.
// ---------------------------------------------------------------------------

pub proof fn lemma_dec_opt_u64(o: Option<u64>, rest: Seq<u8>)
    ensures
        dec_opt_u64(enc_opt_u64(o) + rest) == Some((o, rest)),
{
    match o {
        None => {
            lemma_dec_u8(TAG_NONE, rest);
        },
        Some(x) => {
            assert((enc_u8(TAG_SOME) + enc_u64(x)) + rest =~= enc_u8(TAG_SOME) + (enc_u64(x)
                + rest));
            lemma_dec_u8(TAG_SOME, enc_u64(x) + rest);
            lemma_dec_u64(x, rest);
        },
    }
}

pub proof fn lemma_dec_opt_bytes(o: Option<Seq<u8>>, rest: Seq<u8>)
    requires
        o matches Some(b) ==> b.len() <= u64::MAX,
    ensures
        dec_opt_bytes(enc_opt_bytes(o) + rest) == Some((o, rest)),
{
    match o {
        None => {
            lemma_dec_u8(TAG_NONE, rest);
        },
        Some(b) => {
            assert((enc_u8(TAG_SOME) + enc_bytes(b)) + rest =~= enc_u8(TAG_SOME) + (enc_bytes(b)
                + rest));
            lemma_dec_u8(TAG_SOME, enc_bytes(b) + rest);
            lemma_dec_bytes(b, rest);
        },
    }
}

/// Length bounds under which a transport value can be encoded.
pub open spec fn transport_bounded(t: TransportView) -> bool {
    match t {
        TransportView::Tcp { host, port, peer_id } => host.len() <= u64::MAX && (peer_id matches
        Some(p) ==> p.len() <= u64::MAX),
        TransportView::Unix { path } => path.len() <= u64::MAX,
    }
}

pub proof fn lemma_dec_transport(t: TransportView, rest: Seq<u8>)
    requires
        transport_bounded(t),
    ensures
        dec_transport(enc_transport(t) + rest) == Some((t, rest)),
{
    match t {
        TransportView::Tcp { host, port, peer_id } => {
            assert(enc_transport(t) + rest =~= enc_u8(TAG_TCP) + (enc_bytes(host) + (enc_u64(
                port as u64,
            ) + (enc_opt_bytes(peer_id) + rest))));
            lemma_dec_u8(TAG_TCP, enc_bytes(host) + (enc_u64(port as u64) + (enc_opt_bytes(peer_id)
                + rest)));
            lemma_dec_bytes(host, enc_u64(port as u64) + (enc_opt_bytes(peer_id) + rest));
            lemma_dec_u64(port as u64, enc_opt_bytes(peer_id) + rest);
            lemma_dec_opt_bytes(peer_id, rest);
        },
        TransportView::Unix { path } => {
            assert(enc_transport(t) + rest =~= enc_u8(TAG_UNIX) + (enc_bytes(path) + rest));
            lemma_dec_u8(TAG_UNIX, enc_bytes(path) + rest);
            lemma_dec_bytes(path, rest);
        },
    }
}

/// Length bounds under which credentials can be encoded.
pub open spec fn credentials_bounded(c: CredentialsView) -> bool {
    c.aws_key_id.len() <= u64::MAX && c.aws_secret_key.len() <= u64::MAX
        && c.aws_session_token.len() <= u64::MAX
}

pub proof fn lemma_dec_credentials(c: CredentialsView, rest: Seq<u8>)
    requires
        credentials_bounded(c),
    ensures
        dec_credentials(enc_credentials(c) + rest) == Some((c, rest)),
{
    assert(enc_credentials(c) + rest =~= enc_bytes(c.aws_key_id) + (enc_bytes(c.aws_secret_key) + (
    enc_bytes(c.aws_session_token) + rest)));
    lemma_dec_bytes(c.aws_key_id, enc_bytes(c.aws_secret_key) + (enc_bytes(c.aws_session_token)
        + rest));
    lemma_dec_bytes(c.aws_secret_key, enc_bytes(c.aws_session_token) + rest);
    lemma_dec_bytes(c.aws_session_token, rest);
}

/// Length bounds under which a whole configuration can be encoded. Every
/// configuration held in memory satisfies them.
pub open spec fn config_bounded(c: ConfigView) -> bool {
    c.chain_id.len() <= u64::MAX && c.sealed_consensus_key.len() <= u64::MAX && (c.sealed_id_key
        matches Some(k) ==> k.len() <= u64::MAX) && (c.peer_id matches Some(p) ==> p.len()
        <= u64::MAX) && transport_bounded(c.transport) && credentials_bounded(c.credentials)
        && c.aws_region.len() <= u64::MAX
}

/// Concatenating a configuration's encoding with trailing bytes equals the
/// right-associated chain of its field encodings; stated apart so the
/// extensional-equality work stays out of the parsing proof.
proof fn lemma_enc_config_assoc(c: ConfigView, rest: Seq<u8>)
    ensures
        enc_config(c) + rest == enc_bytes(c.chain_id) + (enc_opt_u64(c.max_height) + (enc_bytes(
            c.sealed_consensus_key,
        ) + (enc_opt_bytes(c.sealed_id_key) + (enc_opt_bytes(c.peer_id) + (enc_u64(
            c.enclave_state_port as u64,
        ) + (enc_transport(c.transport) + (enc_credentials(c.credentials) + (enc_bytes(
            c.aws_region,
        ) + rest)))))))),
{
    assert(enc_config(c) + rest =~= enc_bytes(c.chain_id) + (enc_opt_u64(c.max_height) + (
    enc_bytes(c.sealed_consensus_key) + (enc_opt_bytes(c.sealed_id_key) + (enc_opt_bytes(c.peer_id)
        + (enc_u64(c.enclave_state_port as u64) + (enc_transport(c.transport) + (enc_credentials(
        c.credentials,
    ) + (enc_bytes(c.aws_region) + rest)))))))));
}

#[verifier::rlimit(100)]
pub proof fn lemma_dec_config(c: ConfigView, rest: Seq<u8>)
    requires
        config_bounded(c),
    ensures
        dec_config(enc_config(c) + rest) == Some((c, rest)),
{
    let s6 = enc_transport(c.transport) + (enc_credentials(c.credentials) + (enc_bytes(
        c.aws_region,
    ) + rest));
    let s5 = enc_u64(c.enclave_state_port as u64) + s6;
    let s4 = enc_opt_bytes(c.peer_id) + s5;
    let s3 = enc_opt_bytes(c.sealed_id_key) + s4;
    let s2 = enc_bytes(c.sealed_consensus_key) + s3;
    let s1 = enc_opt_u64(c.max_height) + s2;
    lemma_enc_config_assoc(c, rest);
    lemma_dec_bytes(c.chain_id, s1);
    lemma_dec_opt_u64(c.max_height, s2);
    lemma_dec_bytes(c.sealed_consensus_key, s3);
    lemma_dec_opt_bytes(c.sealed_id_key, s4);
    lemma_dec_opt_bytes(c.peer_id, s5);
    lemma_dec_u64(c.enclave_state_port as u64, s6);
    lemma_dec_transport(c.transport, enc_credentials(c.credentials) + (enc_bytes(c.aws_region)
        + rest));
    lemma_dec_credentials(c.credentials, enc_bytes(c.aws_region) + rest);
    lemma_dec_bytes(c.aws_region, rest);
}

/// Length bounds under which a whole request can be encoded.
pub open spec fn request_bounded(r: ControlRequestView) -> bool {
    match r {
        ControlRequestView::Start(c) => config_bounded(c),
    }
}

/// Decoding inverts encoding: every constructible request value is
/// recovered exactly from its own encoding.
pub proof fn lemma_request_round_trip(r: ControlRequestView)
    requires
        request_bounded(r),
    ensures
        spec_decode_request(spec_encode_request(r)) == Ok::<ControlRequestView, ProtocolError>(r),
{
    match r {
        ControlRequestView::Start(c) => {
            let empty = Seq::<u8>::empty();
            assert(spec_encode_request(r) =~= enc_u8(TAG_START) + (enc_config(c) + empty));
            lemma_dec_u8(TAG_START, enc_config(c) + empty);
            assert(enc_config(c) + empty =~= enc_config(c) + empty);
            lemma_dec_config(c, empty);
        },
    }
}

// ---------------------------------------------------------------------------
// Executable encoding.
// ---------------------------------------------------------------------------

fn put_opt_u64(out: &mut Vec<u8>, o: &Option<u64>)
    ensures
        final(out)@ == old(out)@ + enc_opt_u64(*o),
{
    match o {
        None => {
            put_u8(out, TAG_NONE);
        },
        Some(x) => {
            put_u8(out, TAG_SOME);
            put_u64(out, *x);
            assert(final(out)@ =~= old(out)@ + enc_opt_u64(*o));
        },
    }
}

fn put_opt_bytes(out: &mut Vec<u8>, o: &Option<Vec<u8>>)
    ensures
        final(out)@ == old(out)@ + enc_opt_bytes(opt_view(*o)),
{
    match o {
        None => {
            put_u8(out, TAG_NONE);
        },
        Some(b) => {
            put_u8(out, TAG_SOME);
            put_bytes(out, b);
            assert(final(out)@ =~= old(out)@ + enc_opt_bytes(opt_view(*o)));
        },
    }
}

fn put_transport(out: &mut Vec<u8>, t: &TransportKind)
    ensures
        final(out)@ == old(out)@ + enc_transport(t@),
{
    match t {
        TransportKind::Tcp { host, port, peer_id } => {
            put_u8(out, TAG_TCP);
            put_bytes(out, host);
            put_u64(out, *port as u64);
            put_opt_bytes(out, peer_id);
            assert(final(out)@ =~= old(out)@ + enc_transport(t@));
        },
        TransportKind::Unix { path } => {
            put_u8(out, TAG_UNIX);
            put_bytes(out, path);
            assert(final(out)@ =~= old(out)@ + enc_transport(t@));
        },
    }
}

fn put_credentials(out: &mut Vec<u8>, c: &AwsCredentials)
    ensures
        final(out)@ == old(out)@ + enc_credentials(c@),
{
    put_bytes(out, &c.aws_key_id);
    put_bytes(out, &c.aws_secret_key);
    put_bytes(out, &c.aws_session_token);
    assert(final(out)@ =~= old(out)@ + enc_credentials(c@));
}

/// Encodes a request for the wire.
pub fn encode(req: &ControlRequest) -> (r: Vec<u8>)
    ensures
        r@ == spec_encode_request(req@),
{
    let mut out: Vec<u8> = Vec::new();
    match req {
        ControlRequest::Start(c) => {
            put_u8(&mut out, TAG_START);
            put_bytes(&mut out, &c.chain_id);
            put_opt_u64(&mut out, &c.max_height);
            put_bytes(&mut out, &c.sealed_consensus_key);
            put_opt_bytes(&mut out, &c.sealed_id_key);
            put_opt_bytes(&mut out, &c.peer_id);
            put_u64(&mut out, c.enclave_state_port as u64);
            put_transport(&mut out, &c.transport);
            put_credentials(&mut out, &c.credentials);
            put_bytes(&mut out, &c.aws_region);
            assert(out@ =~= spec_encode_request(req@));
        },
    }
    out
}

// ---------------------------------------------------------------------------
// Executable parsing.
// ---------------------------------------------------------------------------

fn take_opt_u64(data: &Vec<u8>, i: usize) -> (r: Option<(Option<u64>, usize)>)
    requires
        i <= data@.len(),
    ensures
        match r {
            Some((o, j)) => j <= data@.len() && dec_opt_u64(data@.skip(i as int)) == Some(
                (o, data@.skip(j as int)),
            ),
            None => dec_opt_u64(data@.skip(i as int)) is None,
        },
{
    match take_u8(data, i) {
        None => None,
        Some((t, j)) => {
            if t == TAG_NONE {
                Some((None, j))
            } else if t == TAG_SOME {
                match take_u64(data, j) {
                    None => None,
                    Some((x, j2)) => Some((Some(x), j2)),
                }
            } else {
                None
            }
        },
    }
}

fn take_opt_bytes(data: &Vec<u8>, i: usize) -> (r: Option<(Option<Vec<u8>>, usize)>)
    requires
        i <= data@.len(),
    ensures
        match r {
            Some((o, j)) => j <= data@.len() && dec_opt_bytes(data@.skip(i as int)) == Some(
                (opt_view(o), data@.skip(j as int)),
            ),
            None => dec_opt_bytes(data@.skip(i as int)) is None,
        },
{
    match take_u8(data, i) {
        None => None,
        Some((t, j)) => {
            if t == TAG_NONE {
                Some((None, j))
            } else if t == TAG_SOME {
                match take_bytes(data, j) {
                    None => None,
                    Some((b, j2)) => Some((Some(b), j2)),
                }
            } else {
                None
            }
        },
    }
}

fn take_transport(data: &Vec<u8>, i: usize) -> (r: Option<(TransportKind, usize)>)
    requires
        i <= data@.len(),
    ensures
        match r {
            Some((t, j)) => j <= data@.len() && dec_transport(data@.skip(i as int)) == Some(
                (t@, data@.skip(j as int)),
            ),
            None => dec_transport(data@.skip(i as int)) is None,
        },
{
    match take_u8(data, i) {
        None => None,
        Some((t, j)) => {
            if t == TAG_TCP {
                match take_bytes(data, j) {
                    None => None,
                    Some((host, j2)) => match take_u64(data, j2) {
                        None => None,
                        Some((port, j3)) => {
                            if port <= u16::MAX as u64 {
                                match take_opt_bytes(data, j3) {
                                    None => None,
                                    Some((peer_id, j4)) => Some(
                                        (
                                            TransportKind::Tcp {
                                                host,
                                                port: port as u16,
                                                peer_id,
                                            },
                                            j4,
                                        ),
                                    ),
                                }
                            } else {
                                None
                            }
                        },
                    },
                }
            } else if t == TAG_UNIX {
                match take_bytes(data, j) {
                    None => None,
                    Some((path, j2)) => Some((TransportKind::Unix { path }, j2)),
                }
            } else {
                None
            }
        },
    }
}

fn take_credentials(data: &Vec<u8>, i: usize) -> (r: Option<(AwsCredentials, usize)>)
    requires
        i <= data@.len(),
    ensures
        match r {
            Some((c, j)) => j <= data@.len() && dec_credentials(data@.skip(i as int)) == Some(
                (c@, data@.skip(j as int)),
            ),
            None => dec_credentials(data@.skip(i as int)) is None,
        },
{
    match take_bytes(data, i) {
        None => None,
        Some((key, j)) => match take_bytes(data, j) {
            None => None,
            Some((secret, j2)) => match take_bytes(data, j2) {
                None => None,
                Some((token, j3)) => Some(
                    (
                        AwsCredentials {
                            aws_key_id: key,
                            aws_secret_key: secret,
                            aws_session_token: token,
                        },
                        j3,
                    ),
                ),
            },
        },
    }
}

fn take_config(data: &Vec<u8>, i: usize) -> (r: Option<(SigningEndpointConfig, usize)>)
    requires
        i <= data@.len(),
    ensures
        match r {
            Some((c, j)) => j <= data@.len() && dec_config(data@.skip(i as int)) == Some(
                (c@, data@.skip(j as int)),
            ),
            None => dec_config(data@.skip(i as int)) is None,
        },
{
    match take_bytes(data, i) {
        None => None,
        Some((chain_id, j1)) => match take_opt_u64(data, j1) {
            None => None,
            Some((max_height, j2)) => match take_bytes(data, j2) {
                None => None,
                Some((sealed_consensus_key, j3)) => match take_opt_bytes(data, j3) {
                    None => None,
                    Some((sealed_id_key, j4)) => match take_opt_bytes(data, j4) {
                        None => None,
                        Some((peer_id, j5)) => match take_u64(data, j5) {
                            None => None,
                            Some((port, j6)) => {
                                if port <= u32::MAX as u64 {
                                    match take_transport(data, j6) {
                                        None => None,
                                        Some((transport, j7)) => match take_credentials(
                                            data,
                                            j7,
                                        ) {
                                            None => None,
                                            Some((credentials, j8)) => match take_bytes(
                                                data,
                                                j8,
                                            ) {
                                                None => None,
                                                Some((aws_region, j9)) => Some(
                                                    (
                                                        SigningEndpointConfig {
                                                            chain_id,
                                                            max_height,
                                                            sealed_consensus_key,
                                                            sealed_id_key,
                                                            peer_id,
                                                            enclave_state_port: port as u32,
                                                            transport,
                                                            credentials,
                                                            aws_region,
                                                        },
                                                        j9,
                                                    ),
                                                ),
                                            },
                                        },
                                    }
                                } else {
                                    None
                                }
                            },
                        },
                    },
                },
            },
        },
    }
}

/// Decodes one whole request message. Fails with `UnknownVariant` on a tag
/// this protocol does not define, and with `MalformedPayload` when the
/// fields do not parse or bytes trail the message.
pub fn decode(data: &Vec<u8>) -> (r: Result<ControlRequest, ProtocolError>)
    ensures
        match r {
            Ok(req) => spec_decode_request(data@) == Ok::<ControlRequestView, ProtocolError>(req@),
            Err(e) => spec_decode_request(data@) == Err::<ControlRequestView, ProtocolError>(e),
        },
{
    proof {
        assert(data@.skip(0) =~= data@);
    }
    match take_u8(data, 0) {
        None => Err(ProtocolError::MalformedPayload),
        Some((tag, j)) => {
            if tag == TAG_START {
                match take_config(data, j) {
                    None => Err(ProtocolError::MalformedPayload),
                    Some((c, j2)) => {
                        if j2 == data.len() {
                            assert(data@.skip(j2 as int).len() == 0);
                            Ok(ControlRequest::Start(c))
                        } else {
                            assert(data@.skip(j2 as int).len() > 0);
                            Err(ProtocolError::MalformedPayload)
                        }
                    },
                }
            } else {
                Err(ProtocolError::UnknownVariant)
            }
        },
    }
}

} // verus!
