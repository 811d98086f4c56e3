use vstd::prelude::*;

use crate::error::LspError;
use crate::msg::{LspMessage, LspMsgError};

verus! {

/// A message read from a server, with the name of that server.
#[derive(Debug)]
pub struct ServerMessage {
    pub server_name: String,
    pub content: LspMessage,
}

/// What a server task does with what it read from its server: a message
/// goes to the middleware under the server's name; a failed read stops
/// the task.
pub fn forward_server_msg(name: &String, read: Result<LspMessage, LspMsgError>) -> (r: Result<
    ServerMessage,
    LspError,
>)
    ensures
        match read {
            Ok(m) => r matches Ok(sm) && sm.server_name@ == name@ && sm.content@ == m@,
            Err(_) => r == Err::<ServerMessage, LspError>(LspError::ReadMsgError),
        },
{
    match read {
        Ok(fwd_msg) => Ok(ServerMessage { server_name: name.clone(), content: fwd_msg }),
        Err(_) => Err(LspError::ReadMsgError),
    }
}

/// What a server task does with what it received from the middleware: a
/// message is written to the server; a closed channel stops the task.
pub fn message_for_server(msg: Option<LspMessage>) -> (r: Result<LspMessage, LspError>)
    ensures
        match msg {
            Some(m) => r matches Ok(x) && x@ == m@,
            None => r == Err::<LspMessage, LspError>(LspError::RecvMsgError),
        },
{
    match msg {
        Some(server_msg) => Ok(server_msg),
        None => Err(LspError::RecvMsgError),
    }
}

} // verus!
