use vstd::prelude::*;

verus! {

/// Why the middleware loop stopped.
#[derive(Debug, Clone, Copy, PartialEq, Eq, Structural)]
pub enum MiddlewareError {
    /// A message could not be handed to a server.
    SendToSvrFail,
    /// A message could not be handed to the client.
    SendToClientFail,
    /// The channel from the servers closed.
    LspCommFail,
    /// The channel from the client closed.
    ClientFail,
}

/// Why the client side stopped.
#[derive(Debug, Clone, Copy, PartialEq, Eq, Structural)]
pub enum ClientError {
    /// The middleware closed its channel to the client.
    FailedRecvMsg,
    /// A message from the editor could not be read.
    FailedReadMsg,
    /// The middleware could not be reached.
    CommFail,
}

/// Why a language server task stopped.
#[derive(Debug, Clone, Copy, PartialEq, Eq, Structural)]
pub enum LspError {
    /// A message could not be forwarded to the middleware.
    FwdMsgError,
    /// The server process could not be started or written to.
    StdioError,
    /// A message from the server could not be read.
    ReadMsgError,
    /// The middleware closed its channel to the server.
    RecvMsgError,
}

} // verus!
