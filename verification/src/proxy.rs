//! The opening of a tunnel between a local TCP socket and a websocket of the
//! cloud: the key and the headers of the websocket handshake, and what
//! becomes of the two connection attempts.
//!
//! The connections themselves are made and served outside this library.

use base64::prelude::{Engine, BASE64_STANDARD};
use rand::rngs::ThreadRng;
use rand::RngCore;
use vstd::prelude::*;

verus! {

/// The thread-local random number generator of `rand`.
#[verifier::external_type_specification]
#[verifier::external_body]
pub struct ExThreadRng(ThreadRng);

/// The standard base64 encoding of `bytes`, with padding: what
/// `base64::prelude::BASE64_STANDARD.encode` returns for them.
pub uninterp spec fn base64_standard(bytes: Seq<u8>) -> Seq<char>;

/// Calls `rand::thread_rng`, which hands out the generator of the current
/// thread, seeded by the system. Nothing is claimed of the generator. The
/// call panics where the system cannot seed it.
#[verifier::external_body]
fn thread_rng() -> ThreadRng {
    rand::thread_rng()
}

/// Calls `RngCore::fill_bytes` on the thread's generator, which overwrites
/// all of `dest` with random bytes. Nothing is claimed of the bytes written;
/// `dest` keeps its length.
#[verifier::external_body]
fn fill_bytes(rng: &mut ThreadRng, dest: &mut [u8])
    ensures
        final(dest)@.len() == old(dest)@.len(),
{
    rng.fill_bytes(dest)
}

/// Calls `Engine::encode` on `base64::prelude::BASE64_STANDARD`: the result
/// is the standard base64 encoding of `bytes`, with padding. The call panics
/// where the length of the encoding does not fit in `usize`; such inputs are
/// left out.
#[verifier::external_body]
fn base64_standard_encode(bytes: &[u8]) -> (encoded: String)
    requires
        bytes@.len() / 3 * 4 + 4 <= usize::MAX,
    ensures
        encoded@ == base64_standard(bytes@),
{
    BASE64_STANDARD.encode(bytes)
}

/// The number of random bytes in the key of a websocket handshake.
pub const KEY_LENGTH: usize = 16;

/// Encodes the bytes of a handshake key as the text that the header carries.
pub fn encode_sec_websocket_key(bytes: &[u8; KEY_LENGTH]) -> (key: String)
    ensures
        key@ == base64_standard(bytes@),
{
    base64_standard_encode(bytes.as_slice())
}

/// Makes the key of a websocket handshake: sixteen random bytes, encoded in
/// base64. Which bytes they are is left to chance.
pub fn generate_sec_websocket_key() -> (key: String)
    ensures
        exists|bytes: Seq<u8>| bytes.len() == KEY_LENGTH && key@ == #[trigger] base64_standard(bytes),
{
    let mut rng = thread_rng();
    let mut bytes = [0u8; KEY_LENGTH];
    fill_bytes(&mut rng, &mut bytes);
    encode_sec_websocket_key(&bytes)
}

/// One header of a request: its name and its value.
#[derive(Debug)]
pub struct Header {
    pub name: String,
    pub value: String,
}

/// The mathematical content of a [`Header`].
pub struct HeaderView {
    pub name: Seq<char>,
    pub value: Seq<char>,
}

impl View for Header {
    type V = HeaderView;

    open spec fn view(&self) -> HeaderView {
        HeaderView { name: self.name@, value: self.value@ }
    }
}

/// The contents of a list of headers, in the same order.
pub open spec fn header_views(headers: Seq<Header>) -> Seq<HeaderView> {
    headers.map_values(|h: Header| h@)
}

/// The headers of the request that opens the websocket, in the order in
/// which they are set: the authorization, the handshake key, the host, and
/// the upgrade to a websocket of version 13 that speaks the binary protocol.
pub open spec fn handshake_headers(
    authorization: Seq<char>,
    key: Seq<char>,
    host: Seq<char>,
) -> Seq<HeaderView> {
    seq![
        HeaderView { name: "Authorization"@, value: authorization },
        HeaderView { name: "Sec-WebSocket-Key"@, value: key },
        HeaderView { name: "Host"@, value: host },
        HeaderView { name: "Connection"@, value: "Upgrade"@ },
        HeaderView { name: "Upgrade"@, value: "websocket"@ },
        HeaderView { name: "sec-websocket-version"@, value: "13"@ },
        HeaderView { name: "sec-websocket-protocol"@, value: "binary"@ },
    ]
}

fn header(name: &str, value: &str) -> (header: Header)
    ensures
        header@ == (HeaderView { name: name@, value: value@ }),
{
    Header { name: String::from_str(name), value: String::from_str(value) }
}

/// The request that opens the websocket, as far as this library decides it.
pub struct Websocket {}

impl Websocket {
    /// Lists the headers of the request that opens the websocket to `host`,
    /// with the given authorization and handshake key.
    pub fn headers(authorization: &str, key: &str, host: &str) -> (headers: Vec<Header>)
        ensures
            header_views(headers@) == handshake_headers(authorization@, key@, host@),
    {
        let mut headers: Vec<Header> = Vec::new();
        headers.push(header("Authorization", authorization));
        headers.push(header("Sec-WebSocket-Key", key));
        headers.push(header("Host", host));
        headers.push(header("Connection", "Upgrade"));
        headers.push(header("Upgrade", "websocket"));
        headers.push(header("sec-websocket-version", "13"));
        headers.push(header("sec-websocket-protocol", "binary"));
        assert(header_views(headers@) =~= handshake_headers(authorization@, key@, host@));
        headers
    }
}

/// Why the tunnel could not be opened.
#[derive(Debug)]
pub enum ConnectError<SocketError, WebsocketError> {
    /// The local TCP socket could not be reached.
    Socket(SocketError),
    /// The websocket could not be opened.
    Websocket(WebsocketError),
}

/// A tunnel between a local TCP socket and a websocket of the cloud. What
/// arrives on either is sent out on the other.
#[derive(Debug)]
pub struct WebsocketSocketProxy<Socket, Ws> {
    pub socket: Socket,
    pub websocket: Ws,
}

impl<Socket, Ws> WebsocketSocketProxy<Socket, Ws> {
    /// Makes the tunnel from the outcome of the two connection attempts,
    /// which were made side by side. Both must have succeeded. Where the
    /// socket failed, that failure is handed back, whatever became of the
    /// websocket; else that of the websocket.
    pub fn connect<SocketError, WebsocketError>(
        socket: Result<Socket, SocketError>,
        websocket: Result<Ws, WebsocketError>,
    ) -> (proxy: Result<WebsocketSocketProxy<Socket, Ws>, ConnectError<SocketError, WebsocketError>>)
        ensures
            proxy == connection(socket, websocket),
    {
        match socket {
            Err(socket_error) => Err(ConnectError::Socket(socket_error)),
            Ok(socket) => match websocket {
                Err(websocket_error) => Err(ConnectError::Websocket(websocket_error)),
                Ok(websocket) => Ok(WebsocketSocketProxy { socket, websocket }),
            },
        }
    }
}

/// What becomes of two connection attempts: the tunnel, where both
/// succeeded; the failure of the socket, where it failed; else the failure
/// of the websocket.
pub open spec fn connection<Socket, Ws, SocketError, WebsocketError>(
    socket: Result<Socket, SocketError>,
    websocket: Result<Ws, WebsocketError>,
) -> Result<WebsocketSocketProxy<Socket, Ws>, ConnectError<SocketError, WebsocketError>> {
    match (socket, websocket) {
        (Err(socket_error), _) => Err(ConnectError::Socket(socket_error)),
        (Ok(_), Err(websocket_error)) => Err(ConnectError::Websocket(websocket_error)),
        (Ok(socket), Ok(websocket)) => Ok(WebsocketSocketProxy { socket, websocket }),
    }
}

} // verus!
