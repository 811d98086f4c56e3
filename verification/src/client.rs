use vstd::prelude::*;

use crate::error::ClientError;
use crate::msg::LspMessage;

verus! {

/// What the client side does with what it read from the editor: a
/// message goes on to the middleware; a failed read stops the client.
pub fn forward_msg_to_middle(msg: Option<LspMessage>) -> (r: Result<LspMessage, ClientError>)
    ensures
        match msg {
            Some(m) => r matches Ok(x) && x@ == m@,
            None => r == Err::<LspMessage, ClientError>(ClientError::FailedReadMsg),
        },
{
    match msg {
        Some(fwd_msg) => Ok(fwd_msg),
        None => Err(ClientError::FailedReadMsg),
    }
}

/// What the client side does with what it received from the middleware:
/// a message is written to the editor; a closed channel stops the client.
pub fn handle_message_from_server(lsp_msg: Option<LspMessage>) -> (r: Result<
    LspMessage,
    ClientError,
>)
    ensures
        match lsp_msg {
            Some(m) => r matches Ok(x) && x@ == m@,
            None => r == Err::<LspMessage, ClientError>(ClientError::FailedRecvMsg),
        },
{
    match lsp_msg {
        Some(svr_msg) => Ok(svr_msg),
        None => Err(ClientError::FailedRecvMsg),
    }
}

} // verus!
