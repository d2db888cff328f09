use vstd::prelude::*;

use std::ops::ControlFlow;

verus! {

/// Size of the buffer a client's bytes are read into.
pub const RX_BUFFER_SIZE: usize = 4096;

/// A poll registration token, as the engine's server hands them out.
#[derive(Debug, Clone, Copy, PartialEq, Eq, Structural)]
pub struct Token(pub usize);

/// The number of the listening socket's own token.
pub const SERVER: usize = 0;

/// What one read from a client gave.
#[derive(Debug, Clone, Copy, PartialEq, Eq, Structural)]
pub enum RxStatus {
    /// This many bytes arrived; zero means the client closed the connection.
    Recieved(u32),
    /// No bytes are ready yet.
    Nothing,
}

/// The kinds of I/O error the server reacts to differently.
#[derive(Debug, Clone, Copy, PartialEq, Eq, Structural)]
pub enum IoErrorKind {
    WouldBlock,
    Interrupted,
    Other,
}

/// Why serving a client failed.
#[derive(Debug, Clone, Copy, PartialEq, Eq, Structural)]
pub enum ConnectionError {
    /// Reading from the client failed with an error other than
    /// would-block or interrupted.
    Read,
}

/// The operation would block: retry when the socket is ready.
pub fn would_block(err: &IoErrorKind) -> (res: bool)
    ensures
        res <==> *err == IoErrorKind::WouldBlock,
{
    match err {
        IoErrorKind::WouldBlock => true,
        _ => false,
    }
}

/// The operation was interrupted: retry at once.
pub fn interrupted(err: &IoErrorKind) -> (res: bool)
    ensures
        res <==> *err == IoErrorKind::Interrupted,
{
    match err {
        IoErrorKind::Interrupted => true,
        _ => false,
    }
}

/// Hands out the token in `current` and moves `current` to the next one.
pub fn get_next_token(current: &mut Token) -> (res: Token)
    requires
        old(current).0 < usize::MAX,
    ensures
        res == *old(current),
        final(current).0 == old(current).0 + 1,
{
    let next = current.0;
    current.0 = current.0 + 1;
    Token(next)
}

/// Which handler an event goes to.
#[derive(Debug, Clone, Copy, PartialEq, Eq, Structural)]
pub enum EventTarget {
    /// New connections are waiting on the listening socket.
    Server,
    /// The client registered under this token is ready.
    Client(Token),
}

/// Events on the listening socket's token go to the server, the others to
/// the client with that token.
pub fn route_event(token: Token) -> (res: EventTarget)
    ensures
        token.0 == SERVER ==> res == EventTarget::Server,
        token.0 != SERVER ==> res == EventTarget::Client(token),
{
    if token.0 == SERVER {
        EventTarget::Server
    } else {
        EventTarget::Client(token)
    }
}

/// The tokens of the clients: each accepted connection gets the next one,
/// starting right after the listening socket's.
pub struct ClientTokens {
    next_available_client: Token,
    issued: Ghost<Set<usize>>,
}

impl ClientTokens {
    /// The token the next client will get.
    pub closed spec fn next(&self) -> usize {
        self.next_available_client.0
    }

    /// The tokens handed out so far.
    pub closed spec fn issued(&self) -> Set<usize> {
        self.issued@
    }

    /// Every token handed out lies above the server's and below the next one.
    pub open spec fn wf(&self) -> bool {
        &&& self.next() > SERVER
        &&& self.issued().finite()
        &&& forall|t: usize| #[trigger] self.issued().contains(t) ==> SERVER < t < self.next()
    }

    /// No client yet: the first one gets the token after the server's.
    pub fn new() -> (res: ClientTokens)
        ensures
            res.wf(),
            res.next() == SERVER + 1,
            res.issued() == Set::<usize>::empty(),
    {
        let mut token = Token(SERVER + 1);
        let next_available_client = get_next_token(&mut token);
        ClientTokens { next_available_client, issued: Ghost(Set::empty()) }
    }

    /// The token the next client will get.
    pub fn next_available(&self) -> (res: usize)
        ensures
            res == self.next(),
    {
        self.next_available_client.0
    }

    /// The token for a newly accepted client. Tokens are handed out in
    /// increasing order, so the new one was never handed out before, and no
    /// client shares the server's.
    pub fn register_client(&mut self) -> (res: Token)
        requires
            old(self).wf(),
            old(self).next() < usize::MAX,
        ensures
            final(self).wf(),
            res.0 != SERVER,
            res.0 == old(self).next(),
            !old(self).issued().contains(res.0),
            final(self).issued() == old(self).issued().insert(res.0),
            final(self).next() == old(self).next() + 1,
    {
        let token = get_next_token(&mut self.next_available_client);
        self.issued = Ghost(self.issued@.insert(token.0));
        token
    }
}

/// What one read from a client means: bytes (or a closed connection) and
/// no data yet end the reading, an interruption asks to read again, any other
/// error fails.
pub fn recv_status(read: Result<usize, IoErrorKind>) -> (res: Result<
    ControlFlow<RxStatus>,
    ConnectionError,
>)
    ensures
        read matches Ok(n) ==> res == Ok::<ControlFlow<RxStatus>, ConnectionError>(
            ControlFlow::Break(RxStatus::Recieved(n as u32)),
        ),
        read == Err::<usize, IoErrorKind>(IoErrorKind::WouldBlock) ==> res == Ok::<
            ControlFlow<RxStatus>,
            ConnectionError,
        >(ControlFlow::Break(RxStatus::Nothing)),
        read == Err::<usize, IoErrorKind>(IoErrorKind::Interrupted) ==> res == Ok::<
            ControlFlow<RxStatus>,
            ConnectionError,
        >(ControlFlow::Continue(())),
        read == Err::<usize, IoErrorKind>(IoErrorKind::Other) ==> res == Err::<
            ControlFlow<RxStatus>,
            ConnectionError,
        >(ConnectionError::Read),
{
    match read {
        Ok(n) => Ok(ControlFlow::Break(RxStatus::Recieved(n as u32))),
        Err(ref err) if would_block(err) => Ok(ControlFlow::Break(RxStatus::Nothing)),
        Err(ref err) if interrupted(err) => Ok(ControlFlow::Continue(())),
        Err(_) => Err(ConnectionError::Read),
    }
}

/// What a finished read means for the connection.
#[derive(Debug, Clone, Copy, PartialEq, Eq, Structural)]
pub struct ReadableOutcome {
    /// The client closed the connection: it is to be dropped.
    pub connection_closed: bool,
    /// How many bytes arrived, to be shown.
    pub bytes_read: u32,
}

/// A read of zero bytes means the client closed the connection; a read of
/// some bytes means they are to be shown; no data means neither.
pub fn readable_outcome(status: RxStatus) -> (res: ReadableOutcome)
    ensures
        res.connection_closed <==> status == RxStatus::Recieved(0),
        status matches RxStatus::Recieved(n) ==> res.bytes_read == n,
        status == RxStatus::Nothing ==> res.bytes_read == 0,
{
    let mut connection_closed = false;
    let mut bytes_read: u32 = 0;
    if let RxStatus::Recieved(s) = status {
        if s == 0 {
            connection_closed = true;
        } else {
            bytes_read = s;
        }
    }
    ReadableOutcome { connection_closed, bytes_read }
}

} // verus!
