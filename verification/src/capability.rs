use vstd::prelude::*;

use crate::text::str_eq;

verus! {

/// The server capability that a protocol method needs, by the name under
/// which servers announce it in their `capabilities`.
pub open spec fn capability_of(method: Seq<char>) -> Option<Seq<char>> {
    if method == "initialize"@ {
        Some("initializeProvider"@)
    } else if method == "initialized"@ {
        Some("initializedProvider"@)
    } else if method == "shutdown"@ {
        Some("shutdownProvider"@)
    } else if method == "exit"@ {
        Some("exitProvider"@)
    } else if method == "workspace/didChangeConfiguration"@ {
        Some("configChangeProvider"@)
    } else if method == "workspace/didChangeWatchedFiles"@ {
        Some("fileWatchProvider"@)
    } else if method == "workspace/symbol"@ {
        Some("workspaceSymbolProvider"@)
    } else if method == "workspace/executeCommand"@ {
        Some("executeCommandProvider"@)
    } else if method == "workspace/workspaceFolders"@ {
        Some("workspaceFolderProvider"@)
    } else if method == "workspace/configuration"@ {
        Some("workspaceConfigurationProvider"@)
    } else if method == "textDocument/didOpen"@ {
        Some("didOpenProvider"@)
    } else if method == "textDocument/didChange"@ {
        Some("didChangeProvider"@)
    } else if method == "textDocument/didClose"@ {
        Some("didCloseProvider"@)
    } else if method == "textDocument/didSave"@ {
        Some("didSaveProvider"@)
    } else if method == "textDocument/definition"@ {
        Some("definitionProvider"@)
    } else if method == "textDocument/typeDefinition"@ {
        Some("typeDefinitionProvider"@)
    } else if method == "textDocument/declaration"@ {
        Some("declarationProvider"@)
    } else if method == "textDocument/implementation"@ {
        Some("implementationProvider"@)
    } else if method == "textDocument/references"@ {
        Some("referencesProvider"@)
    } else if method == "textDocument/hover"@ {
        Some("hoverProvider"@)
    } else if method == "textDocument/signatureHelp"@ {
        Some("signatureHelpProvider"@)
    } else if method == "textDocument/completion"@ {
        Some("completionProvider"@)
    } else if method == "completionItem/resolve"@ {
        Some("completionResolveProvider"@)
    } else if method == "textDocument/documentSymbol"@ {
        Some("documentSymbolProvider"@)
    } else if method == "textDocument/codeAction"@ {
        Some("codeActionProvider"@)
    } else if method == "codeAction/resolve"@ {
        Some("codeActionResolveProvider"@)
    } else if method == "textDocument/codeLens"@ {
        Some("codeLensProvider"@)
    } else if method == "codeLens/resolve"@ {
        Some("codeLensResolveProvider"@)
    } else if method == "textDocument/documentLink"@ {
        Some("documentLinkProvider"@)
    } else if method == "documentLink/resolve"@ {
        Some("documentLinkResolveProvider"@)
    } else if method == "textDocument/documentHighlight"@ {
        Some("documentHighlightProvider"@)
    } else if method == "textDocument/formatting"@ {
        Some("formattingProvider"@)
    } else if method == "textDocument/rangeFormatting"@ {
        Some("rangeFormattingProvider"@)
    } else if method == "textDocument/onTypeFormatting"@ {
        Some("onTypeFormattingProvider"@)
    } else if method == "textDocument/rename"@ {
        Some("renameProvider"@)
    } else if method == "textDocument/foldingRange"@ {
        Some("foldingRangeProvider"@)
    } else if method == "textDocument/selectionRange"@ {
        Some("selectionRangeProvider"@)
    } else if method == "textDocument/semanticTokens/full"@ {
        Some("semanticTokensFullProvider"@)
    } else if method == "textDocument/semanticTokens/range"@ {
        Some("semanticTokensRangeProvider"@)
    } else if method == "textDocument/semanticTokens/full/delta"@ {
        Some("semanticTokensDeltaProvider"@)
    } else if method == "textDocument/inlayHint"@ {
        Some("inlayHintProvider"@)
    } else if method == "inlayHint/resolve"@ {
        Some("inlayHintResolveProvider"@)
    } else if method == "window/showMessageRequest"@ {
        Some("showMessageRequestProvider"@)
    } else if method == "window/logMessage"@ {
        Some("logMessageProvider"@)
    } else if method == "window/showDocument"@ {
        Some("showDocumentProvider"@)
    } else {
        None
    }
}

/// The server capability that a protocol method needs (see
/// `capability_of`).
pub fn capability_for(method: &str) -> (r: Option<&'static str>)
    ensures
        match r {
            Some(c) => capability_of(method@) == Some(c@),
            None => capability_of(method@) is None,
        },
{
    if str_eq(method, "initialize") {
        Some("initializeProvider")
    } else if str_eq(method, "initialized") {
        Some("initializedProvider")
    } else if str_eq(method, "shutdown") {
        Some("shutdownProvider")
    } else if str_eq(method, "exit") {
        Some("exitProvider")
    } else if str_eq(method, "workspace/didChangeConfiguration") {
        Some("configChangeProvider")
    } else if str_eq(method, "workspace/didChangeWatchedFiles") {
        Some("fileWatchProvider")
    } else if str_eq(method, "workspace/symbol") {
        Some("workspaceSymbolProvider")
    } else if str_eq(method, "workspace/executeCommand") {
        Some("executeCommandProvider")
    } else if str_eq(method, "workspace/workspaceFolders") {
        Some("workspaceFolderProvider")
    } else if str_eq(method, "workspace/configuration") {
        Some("workspaceConfigurationProvider")
    } else if str_eq(method, "textDocument/didOpen") {
        Some("didOpenProvider")
    } else if str_eq(method, "textDocument/didChange") {
        Some("didChangeProvider")
    } else if str_eq(method, "textDocument/didClose") {
        Some("didCloseProvider")
    } else if str_eq(method, "textDocument/didSave") {
        Some("didSaveProvider")
    } else if str_eq(method, "textDocument/definition") {
        Some("definitionProvider")
    } else if str_eq(method, "textDocument/typeDefinition") {
        Some("typeDefinitionProvider")
    } else if str_eq(method, "textDocument/declaration") {
        Some("declarationProvider")
    } else if str_eq(method, "textDocument/implementation") {
        Some("implementationProvider")
    } else if str_eq(method, "textDocument/references") {
        Some("referencesProvider")
    } else if str_eq(method, "textDocument/hover") {
        Some("hoverProvider")
    } else if str_eq(method, "textDocument/signatureHelp") {
        Some("signatureHelpProvider")
    } else if str_eq(method, "textDocument/completion") {
        Some("completionProvider")
    } else if str_eq(method, "completionItem/resolve") {
        Some("completionResolveProvider")
    } else if str_eq(method, "textDocument/documentSymbol") {
        Some("documentSymbolProvider")
    } else if str_eq(method, "textDocument/codeAction") {
        Some("codeActionProvider")
    } else if str_eq(method, "codeAction/resolve") {
        Some("codeActionResolveProvider")
    } else if str_eq(method, "textDocument/codeLens") {
        Some("codeLensProvider")
    } else if str_eq(method, "codeLens/resolve") {
        Some("codeLensResolveProvider")
    } else if str_eq(method, "textDocument/documentLink") {
        Some("documentLinkProvider")
    } else if str_eq(method, "documentLink/resolve") {
        Some("documentLinkResolveProvider")
    } else if str_eq(method, "textDocument/documentHighlight") {
        Some("documentHighlightProvider")
    } else if str_eq(method, "textDocument/formatting") {
        Some("formattingProvider")
    } else if str_eq(method, "textDocument/rangeFormatting") {
        Some("rangeFormattingProvider")
    } else if str_eq(method, "textDocument/onTypeFormatting") {
        Some("onTypeFormattingProvider")
    } else if str_eq(method, "textDocument/rename") {
        Some("renameProvider")
    } else if str_eq(method, "textDocument/foldingRange") {
        Some("foldingRangeProvider")
    } else if str_eq(method, "textDocument/selectionRange") {
        Some("selectionRangeProvider")
    } else if str_eq(method, "textDocument/semanticTokens/full") {
        Some("semanticTokensFullProvider")
    } else if str_eq(method, "textDocument/semanticTokens/range") {
        Some("semanticTokensRangeProvider")
    } else if str_eq(method, "textDocument/semanticTokens/full/delta") {
        Some("semanticTokensDeltaProvider")
    } else if str_eq(method, "textDocument/inlayHint") {
        Some("inlayHintProvider")
    } else if str_eq(method, "inlayHint/resolve") {
        Some("inlayHintResolveProvider")
    } else if str_eq(method, "window/showMessageRequest") {
        Some("showMessageRequestProvider")
    } else if str_eq(method, "window/logMessage") {
        Some("logMessageProvider")
    } else if str_eq(method, "window/showDocument") {
        Some("showDocumentProvider")
    } else {
        None
    }
}

/// Each protocol method needs the capability that the protocol's table
/// lists for it.
pub proof fn law_capability_table()
    ensures
        capability_of("initialize"@) == Some("initializeProvider"@),
        capability_of("initialized"@) == Some("initializedProvider"@),
        capability_of("shutdown"@) == Some("shutdownProvider"@),
        capability_of("exit"@) == Some("exitProvider"@),
        capability_of("workspace/didChangeConfiguration"@) == Some("configChangeProvider"@),
        capability_of("workspace/didChangeWatchedFiles"@) == Some("fileWatchProvider"@),
        capability_of("workspace/symbol"@) == Some("workspaceSymbolProvider"@),
        capability_of("workspace/executeCommand"@) == Some("executeCommandProvider"@),
        capability_of("workspace/workspaceFolders"@) == Some("workspaceFolderProvider"@),
        capability_of("workspace/configuration"@) == Some("workspaceConfigurationProvider"@),
        capability_of("textDocument/didOpen"@) == Some("didOpenProvider"@),
        capability_of("textDocument/didChange"@) == Some("didChangeProvider"@),
        capability_of("textDocument/didClose"@) == Some("didCloseProvider"@),
        capability_of("textDocument/didSave"@) == Some("didSaveProvider"@),
        capability_of("textDocument/definition"@) == Some("definitionProvider"@),
        capability_of("textDocument/typeDefinition"@) == Some("typeDefinitionProvider"@),
        capability_of("textDocument/declaration"@) == Some("declarationProvider"@),
        capability_of("textDocument/implementation"@) == Some("implementationProvider"@),
        capability_of("textDocument/references"@) == Some("referencesProvider"@),
        capability_of("textDocument/hover"@) == Some("hoverProvider"@),
        capability_of("textDocument/signatureHelp"@) == Some("signatureHelpProvider"@),
        capability_of("textDocument/completion"@) == Some("completionProvider"@),
        capability_of("completionItem/resolve"@) == Some("completionResolveProvider"@),
        capability_of("textDocument/documentSymbol"@) == Some("documentSymbolProvider"@),
        capability_of("textDocument/codeAction"@) == Some("codeActionProvider"@),
        capability_of("codeAction/resolve"@) == Some("codeActionResolveProvider"@),
        capability_of("textDocument/codeLens"@) == Some("codeLensProvider"@),
        capability_of("codeLens/resolve"@) == Some("codeLensResolveProvider"@),
        capability_of("textDocument/documentLink"@) == Some("documentLinkProvider"@),
        capability_of("documentLink/resolve"@) == Some("documentLinkResolveProvider"@),
        capability_of("textDocument/documentHighlight"@) == Some("documentHighlightProvider"@),
        capability_of("textDocument/formatting"@) == Some("formattingProvider"@),
        capability_of("textDocument/rangeFormatting"@) == Some("rangeFormattingProvider"@),
        capability_of("textDocument/onTypeFormatting"@) == Some("onTypeFormattingProvider"@),
        capability_of("textDocument/rename"@) == Some("renameProvider"@),
        capability_of("textDocument/foldingRange"@) == Some("foldingRangeProvider"@),
        capability_of("textDocument/selectionRange"@) == Some("selectionRangeProvider"@),
        capability_of("textDocument/semanticTokens/full"@) == Some("semanticTokensFullProvider"@),
        capability_of("textDocument/semanticTokens/range"@) == Some("semanticTokensRangeProvider"@),
        capability_of("textDocument/semanticTokens/full/delta"@) == Some("semanticTokensDeltaProvider"@),
        capability_of("textDocument/inlayHint"@) == Some("inlayHintProvider"@),
        capability_of("inlayHint/resolve"@) == Some("inlayHintResolveProvider"@),
        capability_of("window/showMessageRequest"@) == Some("showMessageRequestProvider"@),
        capability_of("window/logMessage"@) == Some("logMessageProvider"@),
        capability_of("window/showDocument"@) == Some("showDocumentProvider"@),
{
    assert(capability_of("initialize"@) == Some("initializeProvider"@)) by {
        reveal_strlit("initialize");
    }
    assert(capability_of("initialized"@) == Some("initializedProvider"@)) by {
        reveal_strlit("initialized");
        reveal_strlit("initialize");
        assert("initialized"@.len() != "initialize"@.len());
    }
    assert(capability_of("shutdown"@) == Some("shutdownProvider"@)) by {
        reveal_strlit("shutdown");
        reveal_strlit("initialize");
        assert("shutdown"@.len() != "initialize"@.len());
        reveal_strlit("initialized");
        assert("shutdown"@.len() != "initialized"@.len());
    }
    assert(capability_of("exit"@) == Some("exitProvider"@)) by {
        reveal_strlit("exit");
        reveal_strlit("initialize");
        assert("exit"@.len() != "initialize"@.len());
        reveal_strlit("initialized");
        assert("exit"@.len() != "initialized"@.len());
        reveal_strlit("shutdown");
        assert("exit"@.len() != "shutdown"@.len());
    }
    assert(capability_of("workspace/didChangeConfiguration"@) == Some("configChangeProvider"@)) by {
        reveal_strlit("workspace/didChangeConfiguration");
        reveal_strlit("initialize");
        assert("workspace/didChangeConfiguration"@.len() != "initialize"@.len());
        reveal_strlit("initialized");
        assert("workspace/didChangeConfiguration"@.len() != "initialized"@.len());
        reveal_strlit("shutdown");
        assert("workspace/didChangeConfiguration"@.len() != "shutdown"@.len());
        reveal_strlit("exit");
        assert("workspace/didChangeConfiguration"@.len() != "exit"@.len());
    }
    assert(capability_of("workspace/didChangeWatchedFiles"@) == Some("fileWatchProvider"@)) by {
        reveal_strlit("workspace/didChangeWatchedFiles");
        reveal_strlit("initialize");
        assert("workspace/didChangeWatchedFiles"@.len() != "initialize"@.len());
        reveal_strlit("initialized");
        assert("workspace/didChangeWatchedFiles"@.len() != "initialized"@.len());
        reveal_strlit("shutdown");
        assert("workspace/didChangeWatchedFiles"@.len() != "shutdown"@.len());
        reveal_strlit("exit");
        assert("workspace/didChangeWatchedFiles"@.len() != "exit"@.len());
        reveal_strlit("workspace/didChangeConfiguration");
        assert("workspace/didChangeWatchedFiles"@.len() != "workspace/didChangeConfiguration"@.len());
    }
    assert(capability_of("workspace/symbol"@) == Some("workspaceSymbolProvider"@)) by {
        reveal_strlit("workspace/symbol");
        reveal_strlit("initialize");
        assert("workspace/symbol"@.len() != "initialize"@.len());
        reveal_strlit("initialized");
        assert("workspace/symbol"@.len() != "initialized"@.len());
        reveal_strlit("shutdown");
        assert("workspace/symbol"@.len() != "shutdown"@.len());
        reveal_strlit("exit");
        assert("workspace/symbol"@.len() != "exit"@.len());
        reveal_strlit("workspace/didChangeConfiguration");
        assert("workspace/symbol"@.len() != "workspace/didChangeConfiguration"@.len());
        reveal_strlit("workspace/didChangeWatchedFiles");
        assert("workspace/symbol"@.len() != "workspace/didChangeWatchedFiles"@.len());
    }
    assert(capability_of("workspace/executeCommand"@) == Some("executeCommandProvider"@)) by {
        reveal_strlit("workspace/executeCommand");
        reveal_strlit("initialize");
        assert("workspace/executeCommand"@.len() != "initialize"@.len());
        reveal_strlit("initialized");
        assert("workspace/executeCommand"@.len() != "initialized"@.len());
        reveal_strlit("shutdown");
        assert("workspace/executeCommand"@.len() != "shutdown"@.len());
        reveal_strlit("exit");
        assert("workspace/executeCommand"@.len() != "exit"@.len());
        reveal_strlit("workspace/didChangeConfiguration");
        assert("workspace/executeCommand"@.len() != "workspace/didChangeConfiguration"@.len());
        reveal_strlit("workspace/didChangeWatchedFiles");
        assert("workspace/executeCommand"@.len() != "workspace/didChangeWatchedFiles"@.len());
        reveal_strlit("workspace/symbol");
        assert("workspace/executeCommand"@.len() != "workspace/symbol"@.len());
    }
    assert(capability_of("workspace/workspaceFolders"@) == Some("workspaceFolderProvider"@)) by {
        reveal_strlit("workspace/workspaceFolders");
        reveal_strlit("initialize");
        assert("workspace/workspaceFolders"@.len() != "initialize"@.len());
        reveal_strlit("initialized");
        assert("workspace/workspaceFolders"@.len() != "initialized"@.len());
        reveal_strlit("shutdown");
        assert("workspace/workspaceFolders"@.len() != "shutdown"@.len());
        reveal_strlit("exit");
        assert("workspace/workspaceFolders"@.len() != "exit"@.len());
        reveal_strlit("workspace/didChangeConfiguration");
        assert("workspace/workspaceFolders"@.len() != "workspace/didChangeConfiguration"@.len());
        reveal_strlit("workspace/didChangeWatchedFiles");
        assert("workspace/workspaceFolders"@.len() != "workspace/didChangeWatchedFiles"@.len());
        reveal_strlit("workspace/symbol");
        assert("workspace/workspaceFolders"@.len() != "workspace/symbol"@.len());
        reveal_strlit("workspace/executeCommand");
        assert("workspace/workspaceFolders"@.len() != "workspace/executeCommand"@.len());
    }
    assert(capability_of("workspace/configuration"@) == Some("workspaceConfigurationProvider"@)) by {
        reveal_strlit("workspace/configuration");
        reveal_strlit("initialize");
        assert("workspace/configuration"@.len() != "initialize"@.len());
        reveal_strlit("initialized");
        assert("workspace/configuration"@.len() != "initialized"@.len());
        reveal_strlit("shutdown");
        assert("workspace/configuration"@.len() != "shutdown"@.len());
        reveal_strlit("exit");
        assert("workspace/configuration"@.len() != "exit"@.len());
        reveal_strlit("workspace/didChangeConfiguration");
        assert("workspace/configuration"@.len() != "workspace/didChangeConfiguration"@.len());
        reveal_strlit("workspace/didChangeWatchedFiles");
        assert("workspace/configuration"@.len() != "workspace/didChangeWatchedFiles"@.len());
        reveal_strlit("workspace/symbol");
        assert("workspace/configuration"@.len() != "workspace/symbol"@.len());
        reveal_strlit("workspace/executeCommand");
        assert("workspace/configuration"@.len() != "workspace/executeCommand"@.len());
        reveal_strlit("workspace/workspaceFolders");
        assert("workspace/configuration"@.len() != "workspace/workspaceFolders"@.len());
    }
    assert(capability_of("textDocument/didOpen"@) == Some("didOpenProvider"@)) by {
        reveal_strlit("textDocument/didOpen");
        reveal_strlit("initialize");
        assert("textDocument/didOpen"@.len() != "initialize"@.len());
        reveal_strlit("initialized");
        assert("textDocument/didOpen"@.len() != "initialized"@.len());
        reveal_strlit("shutdown");
        assert("textDocument/didOpen"@.len() != "shutdown"@.len());
        reveal_strlit("exit");
        assert("textDocument/didOpen"@.len() != "exit"@.len());
        reveal_strlit("workspace/didChangeConfiguration");
        assert("textDocument/didOpen"@.len() != "workspace/didChangeConfiguration"@.len());
        reveal_strlit("workspace/didChangeWatchedFiles");
        assert("textDocument/didOpen"@.len() != "workspace/didChangeWatchedFiles"@.len());
        reveal_strlit("workspace/symbol");
        assert("textDocument/didOpen"@.len() != "workspace/symbol"@.len());
        reveal_strlit("workspace/executeCommand");
        assert("textDocument/didOpen"@.len() != "workspace/executeCommand"@.len());
        reveal_strlit("workspace/workspaceFolders");
        assert("textDocument/didOpen"@.len() != "workspace/workspaceFolders"@.len());
        reveal_strlit("workspace/configuration");
        assert("textDocument/didOpen"@.len() != "workspace/configuration"@.len());
    }
    assert(capability_of("textDocument/didChange"@) == Some("didChangeProvider"@)) by {
        reveal_strlit("textDocument/didChange");
        reveal_strlit("initialize");
        assert("textDocument/didChange"@.len() != "initialize"@.len());
        reveal_strlit("initialized");
        assert("textDocument/didChange"@.len() != "initialized"@.len());
        reveal_strlit("shutdown");
        assert("textDocument/didChange"@.len() != "shutdown"@.len());
        reveal_strlit("exit");
        assert("textDocument/didChange"@.len() != "exit"@.len());
        reveal_strlit("workspace/didChangeConfiguration");
        assert("textDocument/didChange"@.len() != "workspace/didChangeConfiguration"@.len());
        reveal_strlit("workspace/didChangeWatchedFiles");
        assert("textDocument/didChange"@.len() != "workspace/didChangeWatchedFiles"@.len());
        reveal_strlit("workspace/symbol");
        assert("textDocument/didChange"@.len() != "workspace/symbol"@.len());
        reveal_strlit("workspace/executeCommand");
        assert("textDocument/didChange"@.len() != "workspace/executeCommand"@.len());
        reveal_strlit("workspace/workspaceFolders");
        assert("textDocument/didChange"@.len() != "workspace/workspaceFolders"@.len());
        reveal_strlit("workspace/configuration");
        assert("textDocument/didChange"@.len() != "workspace/configuration"@.len());
        reveal_strlit("textDocument/didOpen");
        assert("textDocument/didChange"@.len() != "textDocument/didOpen"@.len());
    }
    assert(capability_of("textDocument/didClose"@) == Some("didCloseProvider"@)) by {
        reveal_strlit("textDocument/didClose");
        reveal_strlit("initialize");
        assert("textDocument/didClose"@.len() != "initialize"@.len());
        reveal_strlit("initialized");
        assert("textDocument/didClose"@.len() != "initialized"@.len());
        reveal_strlit("shutdown");
        assert("textDocument/didClose"@.len() != "shutdown"@.len());
        reveal_strlit("exit");
        assert("textDocument/didClose"@.len() != "exit"@.len());
        reveal_strlit("workspace/didChangeConfiguration");
        assert("textDocument/didClose"@.len() != "workspace/didChangeConfiguration"@.len());
        reveal_strlit("workspace/didChangeWatchedFiles");
        assert("textDocument/didClose"@.len() != "workspace/didChangeWatchedFiles"@.len());
        reveal_strlit("workspace/symbol");
        assert("textDocument/didClose"@.len() != "workspace/symbol"@.len());
        reveal_strlit("workspace/executeCommand");
        assert("textDocument/didClose"@.len() != "workspace/executeCommand"@.len());
        reveal_strlit("workspace/workspaceFolders");
        assert("textDocument/didClose"@.len() != "workspace/workspaceFolders"@.len());
        reveal_strlit("workspace/configuration");
        assert("textDocument/didClose"@.len() != "workspace/configuration"@.len());
        reveal_strlit("textDocument/didOpen");
        assert("textDocument/didClose"@.len() != "textDocument/didOpen"@.len());
        reveal_strlit("textDocument/didChange");
        assert("textDocument/didClose"@.len() != "textDocument/didChange"@.len());
    }
    assert(capability_of("textDocument/didSave"@) == Some("didSaveProvider"@)) by {
        reveal_strlit("textDocument/didSave");
        reveal_strlit("initialize");
        assert("textDocument/didSave"@.len() != "initialize"@.len());
        reveal_strlit("initialized");
        assert("textDocument/didSave"@.len() != "initialized"@.len());
        reveal_strlit("shutdown");
        assert("textDocument/didSave"@.len() != "shutdown"@.len());
        reveal_strlit("exit");
        assert("textDocument/didSave"@.len() != "exit"@.len());
        reveal_strlit("workspace/didChangeConfiguration");
        assert("textDocument/didSave"@.len() != "workspace/didChangeConfiguration"@.len());
        reveal_strlit("workspace/didChangeWatchedFiles");
        assert("textDocument/didSave"@.len() != "workspace/didChangeWatchedFiles"@.len());
        reveal_strlit("workspace/symbol");
        assert("textDocument/didSave"@.len() != "workspace/symbol"@.len());
        reveal_strlit("workspace/executeCommand");
        assert("textDocument/didSave"@.len() != "workspace/executeCommand"@.len());
        reveal_strlit("workspace/workspaceFolders");
        assert("textDocument/didSave"@.len() != "workspace/workspaceFolders"@.len());
        reveal_strlit("workspace/configuration");
        assert("textDocument/didSave"@.len() != "workspace/configuration"@.len());
        reveal_strlit("textDocument/didOpen");
        assert("textDocument/didSave"@[16] != "textDocument/didOpen"@[16]);
        reveal_strlit("textDocument/didChange");
        assert("textDocument/didSave"@.len() != "textDocument/didChange"@.len());
        reveal_strlit("textDocument/didClose");
        assert("textDocument/didSave"@.len() != "textDocument/didClose"@.len());
    }
    assert(capability_of("textDocument/definition"@) == Some("definitionProvider"@)) by {
        reveal_strlit("textDocument/definition");
        reveal_strlit("initialize");
        assert("textDocument/definition"@.len() != "initialize"@.len());
        reveal_strlit("initialized");
        assert("textDocument/definition"@.len() != "initialized"@.len());
        reveal_strlit("shutdown");
        assert("textDocument/definition"@.len() != "shutdown"@.len());
        reveal_strlit("exit");
        assert("textDocument/definition"@.len() != "exit"@.len());
        reveal_strlit("workspace/didChangeConfiguration");
        assert("textDocument/definition"@.len() != "workspace/didChangeConfiguration"@.len());
        reveal_strlit("workspace/didChangeWatchedFiles");
        assert("textDocument/definition"@.len() != "workspace/didChangeWatchedFiles"@.len());
        reveal_strlit("workspace/symbol");
        assert("textDocument/definition"@.len() != "workspace/symbol"@.len());
        reveal_strlit("workspace/executeCommand");
        assert("textDocument/definition"@.len() != "workspace/executeCommand"@.len());
        reveal_strlit("workspace/workspaceFolders");
        assert("textDocument/definition"@.len() != "workspace/workspaceFolders"@.len());
        reveal_strlit("workspace/configuration");
        assert("textDocument/definition"@[0] != "workspace/configuration"@[0]);
        reveal_strlit("textDocument/didOpen");
        assert("textDocument/definition"@.len() != "textDocument/didOpen"@.len());
        reveal_strlit("textDocument/didChange");
        assert("textDocument/definition"@.len() != "textDocument/didChange"@.len());
        reveal_strlit("textDocument/didClose");
        assert("textDocument/definition"@.len() != "textDocument/didClose"@.len());
        reveal_strlit("textDocument/didSave");
        assert("textDocument/definition"@.len() != "textDocument/didSave"@.len());
    }
    assert(capability_of("textDocument/typeDefinition"@) == Some("typeDefinitionProvider"@)) by {
        reveal_strlit("textDocument/typeDefinition");
        reveal_strlit("initialize");
        assert("textDocument/typeDefinition"@.len() != "initialize"@.len());
        reveal_strlit("initialized");
        assert("textDocument/typeDefinition"@.len() != "initialized"@.len());
        reveal_strlit("shutdown");
        assert("textDocument/typeDefinition"@.len() != "shutdown"@.len());
        reveal_strlit("exit");
        assert("textDocument/typeDefinition"@.len() != "exit"@.len());
        reveal_strlit("workspace/didChangeConfiguration");
        assert("textDocument/typeDefinition"@.len() != "workspace/didChangeConfiguration"@.len());
        reveal_strlit("workspace/didChangeWatchedFiles");
        assert("textDocument/typeDefinition"@.len() != "workspace/didChangeWatchedFiles"@.len());
        reveal_strlit("workspace/symbol");
        assert("textDocument/typeDefinition"@.len() != "workspace/symbol"@.len());
        reveal_strlit("workspace/executeCommand");
        assert("textDocument/typeDefinition"@.len() != "workspace/executeCommand"@.len());
        reveal_strlit("workspace/workspaceFolders");
        assert("textDocument/typeDefinition"@.len() != "workspace/workspaceFolders"@.len());
        reveal_strlit("workspace/configuration");
        assert("textDocument/typeDefinition"@.len() != "workspace/configuration"@.len());
        reveal_strlit("textDocument/didOpen");
        assert("textDocument/typeDefinition"@.len() != "textDocument/didOpen"@.len());
        reveal_strlit("textDocument/didChange");
        assert("textDocument/typeDefinition"@.len() != "textDocument/didChange"@.len());
        reveal_strlit("textDocument/didClose");
        assert("textDocument/typeDefinition"@.len() != "textDocument/didClose"@.len());
        reveal_strlit("textDocument/didSave");
        assert("textDocument/typeDefinition"@.len() != "textDocument/didSave"@.len());
        reveal_strlit("textDocument/definition");
        assert("textDocument/typeDefinition"@.len() != "textDocument/definition"@.len());
    }
    assert(capability_of("textDocument/declaration"@) == Some("declarationProvider"@)) by {
        reveal_strlit("textDocument/declaration");
        reveal_strlit("initialize");
        assert("textDocument/declaration"@.len() != "initialize"@.len());
        reveal_strlit("initialized");
        assert("textDocument/declaration"@.len() != "initialized"@.len());
        reveal_strlit("shutdown");
        assert("textDocument/declaration"@.len() != "shutdown"@.len());
        reveal_strlit("exit");
        assert("textDocument/declaration"@.len() != "exit"@.len());
        reveal_strlit("workspace/didChangeConfiguration");
        assert("textDocument/declaration"@.len() != "workspace/didChangeConfiguration"@.len());
        reveal_strlit("workspace/didChangeWatchedFiles");
        assert("textDocument/declaration"@.len() != "workspace/didChangeWatchedFiles"@.len());
        reveal_strlit("workspace/symbol");
        assert("textDocument/declaration"@.len() != "workspace/symbol"@.len());
        reveal_strlit("workspace/executeCommand");
        assert("textDocument/declaration"@[0] != "workspace/executeCommand"@[0]);
        reveal_strlit("workspace/workspaceFolders");
        assert("textDocument/declaration"@.len() != "workspace/workspaceFolders"@.len());
        reveal_strlit("workspace/configuration");
        assert("textDocument/declaration"@.len() != "workspace/configuration"@.len());
        reveal_strlit("textDocument/didOpen");
        assert("textDocument/declaration"@.len() != "textDocument/didOpen"@.len());
        reveal_strlit("textDocument/didChange");
        assert("textDocument/declaration"@.len() != "textDocument/didChange"@.len());
        reveal_strlit("textDocument/didClose");
        assert("textDocument/declaration"@.len() != "textDocument/didClose"@.len());
        reveal_strlit("textDocument/didSave");
        assert("textDocument/declaration"@.len() != "textDocument/didSave"@.len());
        reveal_strlit("textDocument/definition");
        assert("textDocument/declaration"@.len() != "textDocument/definition"@.len());
        reveal_strlit("textDocument/typeDefinition");
        assert("textDocument/declaration"@.len() != "textDocument/typeDefinition"@.len());
    }
    assert(capability_of("textDocument/implementation"@) == Some("implementationProvider"@)) by {
        reveal_strlit("textDocument/implementation");
        reveal_strlit("initialize");
        assert("textDocument/implementation"@.len() != "initialize"@.len());
        reveal_strlit("initialized");
        assert("textDocument/implementation"@.len() != "initialized"@.len());
        reveal_strlit("shutdown");
        assert("textDocument/implementation"@.len() != "shutdown"@.len());
        reveal_strlit("exit");
        assert("textDocument/implementation"@.len() != "exit"@.len());
        reveal_strlit("workspace/didChangeConfiguration");
        assert("textDocument/implementation"@.len() != "workspace/didChangeConfiguration"@.len());
        reveal_strlit("workspace/didChangeWatchedFiles");
        assert("textDocument/implementation"@.len() != "workspace/didChangeWatchedFiles"@.len());
        reveal_strlit("workspace/symbol");
        assert("textDocument/implementation"@.len() != "workspace/symbol"@.len());
        reveal_strlit("workspace/executeCommand");
        assert("textDocument/implementation"@.len() != "workspace/executeCommand"@.len());
        reveal_strlit("workspace/workspaceFolders");
        assert("textDocument/implementation"@.len() != "workspace/workspaceFolders"@.len());
        reveal_strlit("workspace/configuration");
        assert("textDocument/implementation"@.len() != "workspace/configuration"@.len());
        reveal_strlit("textDocument/didOpen");
        assert("textDocument/implementation"@.len() != "textDocument/didOpen"@.len());
        reveal_strlit("textDocument/didChange");
        assert("textDocument/implementation"@.len() != "textDocument/didChange"@.len());
        reveal_strlit("textDocument/didClose");
        assert("textDocument/implementation"@.len() != "textDocument/didClose"@.len());
        reveal_strlit("textDocument/didSave");
        assert("textDocument/implementation"@.len() != "textDocument/didSave"@.len());
        reveal_strlit("textDocument/definition");
        assert("textDocument/implementation"@.len() != "textDocument/definition"@.len());
        reveal_strlit("textDocument/typeDefinition");
        assert("textDocument/implementation"@[13] != "textDocument/typeDefinition"@[13]);
        reveal_strlit("textDocument/declaration");
        assert("textDocument/implementation"@.len() != "textDocument/declaration"@.len());
    }
    assert(capability_of("textDocument/references"@) == Some("referencesProvider"@)) by {
        reveal_strlit("textDocument/references");
        reveal_strlit("initialize");
        assert("textDocument/references"@.len() != "initialize"@.len());
        reveal_strlit("initialized");
        assert("textDocument/references"@.len() != "initialized"@.len());
        reveal_strlit("shutdown");
        assert("textDocument/references"@.len() != "shutdown"@.len());
        reveal_strlit("exit");
        assert("textDocument/references"@.len() != "exit"@.len());
        reveal_strlit("workspace/didChangeConfiguration");
        assert("textDocument/references"@.len() != "workspace/didChangeConfiguration"@.len());
        reveal_strlit("workspace/didChangeWatchedFiles");
        assert("textDocument/references"@.len() != "workspace/didChangeWatchedFiles"@.len());
        reveal_strlit("workspace/symbol");
        assert("textDocument/references"@.len() != "workspace/symbol"@.len());
        reveal_strlit("workspace/executeCommand");
        assert("textDocument/references"@.len() != "workspace/executeCommand"@.len());
        reveal_strlit("workspace/workspaceFolders");
        assert("textDocument/references"@.len() != "workspace/workspaceFolders"@.len());
        reveal_strlit("workspace/configuration");
        assert("textDocument/references"@[0] != "workspace/configuration"@[0]);
        reveal_strlit("textDocument/didOpen");
        assert("textDocument/references"@.len() != "textDocument/didOpen"@.len());
        reveal_strlit("textDocument/didChange");
        assert("textDocument/references"@.len() != "textDocument/didChange"@.len());
        reveal_strlit("textDocument/didClose");
        assert("textDocument/references"@.len() != "textDocument/didClose"@.len());
        reveal_strlit("textDocument/didSave");
        assert("textDocument/references"@.len() != "textDocument/didSave"@.len());
        reveal_strlit("textDocument/definition");
        assert("textDocument/references"@[13] != "textDocument/definition"@[13]);
        reveal_strlit("textDocument/typeDefinition");
        assert("textDocument/references"@.len() != "textDocument/typeDefinition"@.len());
        reveal_strlit("textDocument/declaration");
        assert("textDocument/references"@.len() != "textDocument/declaration"@.len());
        reveal_strlit("textDocument/implementation");
        assert("textDocument/references"@.len() != "textDocument/implementation"@.len());
    }
    assert(capability_of("textDocument/hover"@) == Some("hoverProvider"@)) by {
        reveal_strlit("textDocument/hover");
        reveal_strlit("initialize");
        assert("textDocument/hover"@.len() != "initialize"@.len());
        reveal_strlit("initialized");
        assert("textDocument/hover"@.len() != "initialized"@.len());
        reveal_strlit("shutdown");
        assert("textDocument/hover"@.len() != "shutdown"@.len());
        reveal_strlit("exit");
        assert("textDocument/hover"@.len() != "exit"@.len());
        reveal_strlit("workspace/didChangeConfiguration");
        assert("textDocument/hover"@.len() != "workspace/didChangeConfiguration"@.len());
        reveal_strlit("workspace/didChangeWatchedFiles");
        assert("textDocument/hover"@.len() != "workspace/didChangeWatchedFiles"@.len());
        reveal_strlit("workspace/symbol");
        assert("textDocument/hover"@.len() != "workspace/symbol"@.len());
        reveal_strlit("workspace/executeCommand");
        assert("textDocument/hover"@.len() != "workspace/executeCommand"@.len());
        reveal_strlit("workspace/workspaceFolders");
        assert("textDocument/hover"@.len() != "workspace/workspaceFolders"@.len());
        reveal_strlit("workspace/configuration");
        assert("textDocument/hover"@.len() != "workspace/configuration"@.len());
        reveal_strlit("textDocument/didOpen");
        assert("textDocument/hover"@.len() != "textDocument/didOpen"@.len());
        reveal_strlit("textDocument/didChange");
        assert("textDocument/hover"@.len() != "textDocument/didChange"@.len());
        reveal_strlit("textDocument/didClose");
        assert("textDocument/hover"@.len() != "textDocument/didClose"@.len());
        reveal_strlit("textDocument/didSave");
        assert("textDocument/hover"@.len() != "textDocument/didSave"@.len());
        reveal_strlit("textDocument/definition");
        assert("textDocument/hover"@.len() != "textDocument/definition"@.len());
        reveal_strlit("textDocument/typeDefinition");
        assert("textDocument/hover"@.len() != "textDocument/typeDefinition"@.len());
        reveal_strlit("textDocument/declaration");
        assert("textDocument/hover"@.len() != "textDocument/declaration"@.len());
        reveal_strlit("textDocument/implementation");
        assert("textDocument/hover"@.len() != "textDocument/implementation"@.len());
        reveal_strlit("textDocument/references");
        assert("textDocument/hover"@.len() != "textDocument/references"@.len());
    }
    assert(capability_of("textDocument/signatureHelp"@) == Some("signatureHelpProvider"@)) by {
        reveal_strlit("textDocument/signatureHelp");
        reveal_strlit("initialize");
        assert("textDocument/signatureHelp"@.len() != "initialize"@.len());
        reveal_strlit("initialized");
        assert("textDocument/signatureHelp"@.len() != "initialized"@.len());
        reveal_strlit("shutdown");
        assert("textDocument/signatureHelp"@.len() != "shutdown"@.len());
        reveal_strlit("exit");
        assert("textDocument/signatureHelp"@.len() != "exit"@.len());
        reveal_strlit("workspace/didChangeConfiguration");
        assert("textDocument/signatureHelp"@.len() != "workspace/didChangeConfiguration"@.len());
        reveal_strlit("workspace/didChangeWatchedFiles");
        assert("textDocument/signatureHelp"@.len() != "workspace/didChangeWatchedFiles"@.len());
        reveal_strlit("workspace/symbol");
        assert("textDocument/signatureHelp"@.len() != "workspace/symbol"@.len());
        reveal_strlit("workspace/executeCommand");
        assert("textDocument/signatureHelp"@.len() != "workspace/executeCommand"@.len());
        reveal_strlit("workspace/workspaceFolders");
        assert("textDocument/signatureHelp"@[0] != "workspace/workspaceFolders"@[0]);
        reveal_strlit("workspace/configuration");
        assert("textDocument/signatureHelp"@.len() != "workspace/configuration"@.len());
        reveal_strlit("textDocument/didOpen");
        assert("textDocument/signatureHelp"@.len() != "textDocument/didOpen"@.len());
        reveal_strlit("textDocument/didChange");
        assert("textDocument/signatureHelp"@.len() != "textDocument/didChange"@.len());
        reveal_strlit("textDocument/didClose");
        assert("textDocument/signatureHelp"@.len() != "textDocument/didClose"@.len());
        reveal_strlit("textDocument/didSave");
        assert("textDocument/signatureHelp"@.len() != "textDocument/didSave"@.len());
        reveal_strlit("textDocument/definition");
        assert("textDocument/signatureHelp"@.len() != "textDocument/definition"@.len());
        reveal_strlit("textDocument/typeDefinition");
        assert("textDocument/signatureHelp"@.len() != "textDocument/typeDefinition"@.len());
        reveal_strlit("textDocument/declaration");
        assert("textDocument/signatureHelp"@.len() != "textDocument/declaration"@.len());
        reveal_strlit("textDocument/implementation");
        assert("textDocument/signatureHelp"@.len() != "textDocument/implementation"@.len());
        reveal_strlit("textDocument/references");
        assert("textDocument/signatureHelp"@.len() != "textDocument/references"@.len());
        reveal_strlit("textDocument/hover");
        assert("textDocument/signatureHelp"@.len() != "textDocument/hover"@.len());
    }
    assert(capability_of("textDocument/completion"@) == Some("completionProvider"@)) by {
        reveal_strlit("textDocument/completion");
        reveal_strlit("initialize");
        assert("textDocument/completion"@.len() != "initialize"@.len());
        reveal_strlit("initialized");
        assert("textDocument/completion"@.len() != "initialized"@.len());
        reveal_strlit("shutdown");
        assert("textDocument/completion"@.len() != "shutdown"@.len());
        reveal_strlit("exit");
        assert("textDocument/completion"@.len() != "exit"@.len());
        reveal_strlit("workspace/didChangeConfiguration");
        assert("textDocument/completion"@.len() != "workspace/didChangeConfiguration"@.len());
        reveal_strlit("workspace/didChangeWatchedFiles");
        assert("textDocument/completion"@.len() != "workspace/didChangeWatchedFiles"@.len());
        reveal_strlit("workspace/symbol");
        assert("textDocument/completion"@.len() != "workspace/symbol"@.len());
        reveal_strlit("workspace/executeCommand");
        assert("textDocument/completion"@.len() != "workspace/executeCommand"@.len());
        reveal_strlit("workspace/workspaceFolders");
        assert("textDocument/completion"@.len() != "workspace/workspaceFolders"@.len());
        reveal_strlit("workspace/configuration");
        assert("textDocument/completion"@[0] != "workspace/configuration"@[0]);
        reveal_strlit("textDocument/didOpen");
        assert("textDocument/completion"@.len() != "textDocument/didOpen"@.len());
        reveal_strlit("textDocument/didChange");
        assert("textDocument/completion"@.len() != "textDocument/didChange"@.len());
        reveal_strlit("textDocument/didClose");
        assert("textDocument/completion"@.len() != "textDocument/didClose"@.len());
        reveal_strlit("textDocument/didSave");
        assert("textDocument/completion"@.len() != "textDocument/didSave"@.len());
        reveal_strlit("textDocument/definition");
        assert("textDocument/completion"@[13] != "textDocument/definition"@[13]);
        reveal_strlit("textDocument/typeDefinition");
        assert("textDocument/completion"@.len() != "textDocument/typeDefinition"@.len());
        reveal_strlit("textDocument/declaration");
        assert("textDocument/completion"@.len() != "textDocument/declaration"@.len());
        reveal_strlit("textDocument/implementation");
        assert("textDocument/completion"@.len() != "textDocument/implementation"@.len());
        reveal_strlit("textDocument/references");
        assert("textDocument/completion"@[13] != "textDocument/references"@[13]);
        reveal_strlit("textDocument/hover");
        assert("textDocument/completion"@.len() != "textDocument/hover"@.len());
        reveal_strlit("textDocument/signatureHelp");
        assert("textDocument/completion"@.len() != "textDocument/signatureHelp"@.len());
    }
    assert(capability_of("completionItem/resolve"@) == Some("completionResolveProvider"@)) by {
        reveal_strlit("completionItem/resolve");
        reveal_strlit("initialize");
        assert("completionItem/resolve"@.len() != "initialize"@.len());
        reveal_strlit("initialized");
        assert("completionItem/resolve"@.len() != "initialized"@.len());
        reveal_strlit("shutdown");
        assert("completionItem/resolve"@.len() != "shutdown"@.len());
        reveal_strlit("exit");
        assert("completionItem/resolve"@.len() != "exit"@.len());
        reveal_strlit("workspace/didChangeConfiguration");
        assert("completionItem/resolve"@.len() != "workspace/didChangeConfiguration"@.len());
        reveal_strlit("workspace/didChangeWatchedFiles");
        assert("completionItem/resolve"@.len() != "workspace/didChangeWatchedFiles"@.len());
        reveal_strlit("workspace/symbol");
        assert("completionItem/resolve"@.len() != "workspace/symbol"@.len());
        reveal_strlit("workspace/executeCommand");
        assert("completionItem/resolve"@.len() != "workspace/executeCommand"@.len());
        reveal_strlit("workspace/workspaceFolders");
        assert("completionItem/resolve"@.len() != "workspace/workspaceFolders"@.len());
        reveal_strlit("workspace/configuration");
        assert("completionItem/resolve"@.len() != "workspace/configuration"@.len());
        reveal_strlit("textDocument/didOpen");
        assert("completionItem/resolve"@.len() != "textDocument/didOpen"@.len());
        reveal_strlit("textDocument/didChange");
        assert("completionItem/resolve"@[0] != "textDocument/didChange"@[0]);
        reveal_strlit("textDocument/didClose");
        assert("completionItem/resolve"@.len() != "textDocument/didClose"@.len());
        reveal_strlit("textDocument/didSave");
        assert("completionItem/resolve"@.len() != "textDocument/didSave"@.len());
        reveal_strlit("textDocument/definition");
        assert("completionItem/resolve"@.len() != "textDocument/definition"@.len());
        reveal_strlit("textDocument/typeDefinition");
        assert("completionItem/resolve"@.len() != "textDocument/typeDefinition"@.len());
        reveal_strlit("textDocument/declaration");
        assert("completionItem/resolve"@.len() != "textDocument/declaration"@.len());
        reveal_strlit("textDocument/implementation");
        assert("completionItem/resolve"@.len() != "textDocument/implementation"@.len());
        reveal_strlit("textDocument/references");
        assert("completionItem/resolve"@.len() != "textDocument/references"@.len());
        reveal_strlit("textDocument/hover");
        assert("completionItem/resolve"@.len() != "textDocument/hover"@.len());
        reveal_strlit("textDocument/signatureHelp");
        assert("completionItem/resolve"@.len() != "textDocument/signatureHelp"@.len());
        reveal_strlit("textDocument/completion");
        assert("completionItem/resolve"@.len() != "textDocument/completion"@.len());
    }
    assert(capability_of("textDocument/documentSymbol"@) == Some("documentSymbolProvider"@)) by {
        reveal_strlit("textDocument/documentSymbol");
        reveal_strlit("initialize");
        assert("textDocument/documentSymbol"@.len() != "initialize"@.len());
        reveal_strlit("initialized");
        assert("textDocument/documentSymbol"@.len() != "initialized"@.len());
        reveal_strlit("shutdown");
        assert("textDocument/documentSymbol"@.len() != "shutdown"@.len());
        reveal_strlit("exit");
        assert("textDocument/documentSymbol"@.len() != "exit"@.len());
        reveal_strlit("workspace/didChangeConfiguration");
        assert("textDocument/documentSymbol"@.len() != "workspace/didChangeConfiguration"@.len());
        reveal_strlit("workspace/didChangeWatchedFiles");
        assert("textDocument/documentSymbol"@.len() != "workspace/didChangeWatchedFiles"@.len());
        reveal_strlit("workspace/symbol");
        assert("textDocument/documentSymbol"@.len() != "workspace/symbol"@.len());
        reveal_strlit("workspace/executeCommand");
        assert("textDocument/documentSymbol"@.len() != "workspace/executeCommand"@.len());
        reveal_strlit("workspace/workspaceFolders");
        assert("textDocument/documentSymbol"@.len() != "workspace/workspaceFolders"@.len());
        reveal_strlit("workspace/configuration");
        assert("textDocument/documentSymbol"@.len() != "workspace/configuration"@.len());
        reveal_strlit("textDocument/didOpen");
        assert("textDocument/documentSymbol"@.len() != "textDocument/didOpen"@.len());
        reveal_strlit("textDocument/didChange");
        assert("textDocument/documentSymbol"@.len() != "textDocument/didChange"@.len());
        reveal_strlit("textDocument/didClose");
        assert("textDocument/documentSymbol"@.len() != "textDocument/didClose"@.len());
        reveal_strlit("textDocument/didSave");
        assert("textDocument/documentSymbol"@.len() != "textDocument/didSave"@.len());
        reveal_strlit("textDocument/definition");
        assert("textDocument/documentSymbol"@.len() != "textDocument/definition"@.len());
        reveal_strlit("textDocument/typeDefinition");
        assert("textDocument/documentSymbol"@[13] != "textDocument/typeDefinition"@[13]);
        reveal_strlit("textDocument/declaration");
        assert("textDocument/documentSymbol"@.len() != "textDocument/declaration"@.len());
        reveal_strlit("textDocument/implementation");
        assert("textDocument/documentSymbol"@[13] != "textDocument/implementation"@[13]);
        reveal_strlit("textDocument/references");
        assert("textDocument/documentSymbol"@.len() != "textDocument/references"@.len());
        reveal_strlit("textDocument/hover");
        assert("textDocument/documentSymbol"@.len() != "textDocument/hover"@.len());
        reveal_strlit("textDocument/signatureHelp");
        assert("textDocument/documentSymbol"@.len() != "textDocument/signatureHelp"@.len());
        reveal_strlit("textDocument/completion");
        assert("textDocument/documentSymbol"@.len() != "textDocument/completion"@.len());
        reveal_strlit("completionItem/resolve");
        assert("textDocument/documentSymbol"@.len() != "completionItem/resolve"@.len());
    }
    assert(capability_of("textDocument/codeAction"@) == Some("codeActionProvider"@)) by {
        reveal_strlit("textDocument/codeAction");
        reveal_strlit("initialize");
        assert("textDocument/codeAction"@.len() != "initialize"@.len());
        reveal_strlit("initialized");
        assert("textDocument/codeAction"@.len() != "initialized"@.len());
        reveal_strlit("shutdown");
        assert("textDocument/codeAction"@.len() != "shutdown"@.len());
        reveal_strlit("exit");
        assert("textDocument/codeAction"@.len() != "exit"@.len());
        reveal_strlit("workspace/didChangeConfiguration");
        assert("textDocument/codeAction"@.len() != "workspace/didChangeConfiguration"@.len());
        reveal_strlit("workspace/didChangeWatchedFiles");
        assert("textDocument/codeAction"@.len() != "workspace/didChangeWatchedFiles"@.len());
        reveal_strlit("workspace/symbol");
        assert("textDocument/codeAction"@.len() != "workspace/symbol"@.len());
        reveal_strlit("workspace/executeCommand");
        assert("textDocument/codeAction"@.len() != "workspace/executeCommand"@.len());
        reveal_strlit("workspace/workspaceFolders");
        assert("textDocument/codeAction"@.len() != "workspace/workspaceFolders"@.len());
        reveal_strlit("workspace/configuration");
        assert("textDocument/codeAction"@[0] != "workspace/configuration"@[0]);
        reveal_strlit("textDocument/didOpen");
        assert("textDocument/codeAction"@.len() != "textDocument/didOpen"@.len());
        reveal_strlit("textDocument/didChange");
        assert("textDocument/codeAction"@.len() != "textDocument/didChange"@.len());
        reveal_strlit("textDocument/didClose");
        assert("textDocument/codeAction"@.len() != "textDocument/didClose"@.len());
        reveal_strlit("textDocument/didSave");
        assert("textDocument/codeAction"@.len() != "textDocument/didSave"@.len());
        reveal_strlit("textDocument/definition");
        assert("textDocument/codeAction"@[13] != "textDocument/definition"@[13]);
        reveal_strlit("textDocument/typeDefinition");
        assert("textDocument/codeAction"@.len() != "textDocument/typeDefinition"@.len());
        reveal_strlit("textDocument/declaration");
        assert("textDocument/codeAction"@.len() != "textDocument/declaration"@.len());
        reveal_strlit("textDocument/implementation");
        assert("textDocument/codeAction"@.len() != "textDocument/implementation"@.len());
        reveal_strlit("textDocument/references");
        assert("textDocument/codeAction"@[13] != "textDocument/references"@[13]);
        reveal_strlit("textDocument/hover");
        assert("textDocument/codeAction"@.len() != "textDocument/hover"@.len());
        reveal_strlit("textDocument/signatureHelp");
        assert("textDocument/codeAction"@.len() != "textDocument/signatureHelp"@.len());
        reveal_strlit("textDocument/completion");
        assert("textDocument/codeAction"@[15] != "textDocument/completion"@[15]);
        reveal_strlit("completionItem/resolve");
        assert("textDocument/codeAction"@.len() != "completionItem/resolve"@.len());
        reveal_strlit("textDocument/documentSymbol");
        assert("textDocument/codeAction"@.len() != "textDocument/documentSymbol"@.len());
    }
    assert(capability_of("codeAction/resolve"@) == Some("codeActionResolveProvider"@)) by {
        reveal_strlit("codeAction/resolve");
        reveal_strlit("initialize");
        assert("codeAction/resolve"@.len() != "initialize"@.len());
        reveal_strlit("initialized");
        assert("codeAction/resolve"@.len() != "initialized"@.len());
        reveal_strlit("shutdown");
        assert("codeAction/resolve"@.len() != "shutdown"@.len());
        reveal_strlit("exit");
        assert("codeAction/resolve"@.len() != "exit"@.len());
        reveal_strlit("workspace/didChangeConfiguration");
        assert("codeAction/resolve"@.len() != "workspace/didChangeConfiguration"@.len());
        reveal_strlit("workspace/didChangeWatchedFiles");
        assert("codeAction/resolve"@.len() != "workspace/didChangeWatchedFiles"@.len());
        reveal_strlit("workspace/symbol");
        assert("codeAction/resolve"@.len() != "workspace/symbol"@.len());
        reveal_strlit("workspace/executeCommand");
        assert("codeAction/resolve"@.len() != "workspace/executeCommand"@.len());
        reveal_strlit("workspace/workspaceFolders");
        assert("codeAction/resolve"@.len() != "workspace/workspaceFolders"@.len());
        reveal_strlit("workspace/configuration");
        assert("codeAction/resolve"@.len() != "workspace/configuration"@.len());
        reveal_strlit("textDocument/didOpen");
        assert("codeAction/resolve"@.len() != "textDocument/didOpen"@.len());
        reveal_strlit("textDocument/didChange");
        assert("codeAction/resolve"@.len() != "textDocument/didChange"@.len());
        reveal_strlit("textDocument/didClose");
        assert("codeAction/resolve"@.len() != "textDocument/didClose"@.len());
        reveal_strlit("textDocument/didSave");
        assert("codeAction/resolve"@.len() != "textDocument/didSave"@.len());
        reveal_strlit("textDocument/definition");
        assert("codeAction/resolve"@.len() != "textDocument/definition"@.len());
        reveal_strlit("textDocument/typeDefinition");
        assert("codeAction/resolve"@.len() != "textDocument/typeDefinition"@.len());
        reveal_strlit("textDocument/declaration");
        assert("codeAction/resolve"@.len() != "textDocument/declaration"@.len());
        reveal_strlit("textDocument/implementation");
        assert("codeAction/resolve"@.len() != "textDocument/implementation"@.len());
        reveal_strlit("textDocument/references");
        assert("codeAction/resolve"@.len() != "textDocument/references"@.len());
        reveal_strlit("textDocument/hover");
        assert("codeAction/resolve"@[0] != "textDocument/hover"@[0]);
        reveal_strlit("textDocument/signatureHelp");
        assert("codeAction/resolve"@.len() != "textDocument/signatureHelp"@.len());
        reveal_strlit("textDocument/completion");
        assert("codeAction/resolve"@.len() != "textDocument/completion"@.len());
        reveal_strlit("completionItem/resolve");
        assert("codeAction/resolve"@.len() != "completionItem/resolve"@.len());
        reveal_strlit("textDocument/documentSymbol");
        assert("codeAction/resolve"@.len() != "textDocument/documentSymbol"@.len());
        reveal_strlit("textDocument/codeAction");
        assert("codeAction/resolve"@.len() != "textDocument/codeAction"@.len());
    }
    assert(capability_of("textDocument/codeLens"@) == Some("codeLensProvider"@)) by {
        reveal_strlit("textDocument/codeLens");
        reveal_strlit("initialize");
        assert("textDocument/codeLens"@.len() != "initialize"@.len());
        reveal_strlit("initialized");
        assert("textDocument/codeLens"@.len() != "initialized"@.len());
        reveal_strlit("shutdown");
        assert("textDocument/codeLens"@.len() != "shutdown"@.len());
        reveal_strlit("exit");
        assert("textDocument/codeLens"@.len() != "exit"@.len());
        reveal_strlit("workspace/didChangeConfiguration");
        assert("textDocument/codeLens"@.len() != "workspace/didChangeConfiguration"@.len());
        reveal_strlit("workspace/didChangeWatchedFiles");
        assert("textDocument/codeLens"@.len() != "workspace/didChangeWatchedFiles"@.len());
        reveal_strlit("workspace/symbol");
        assert("textDocument/codeLens"@.len() != "workspace/symbol"@.len());
        reveal_strlit("workspace/executeCommand");
        assert("textDocument/codeLens"@.len() != "workspace/executeCommand"@.len());
        reveal_strlit("workspace/workspaceFolders");
        assert("textDocument/codeLens"@.len() != "workspace/workspaceFolders"@.len());
        reveal_strlit("workspace/configuration");
        assert("textDocument/codeLens"@.len() != "workspace/configuration"@.len());
        reveal_strlit("textDocument/didOpen");
        assert("textDocument/codeLens"@.len() != "textDocument/didOpen"@.len());
        reveal_strlit("textDocument/didChange");
        assert("textDocument/codeLens"@.len() != "textDocument/didChange"@.len());
        reveal_strlit("textDocument/didClose");
        assert("textDocument/codeLens"@[13] != "textDocument/didClose"@[13]);
        reveal_strlit("textDocument/didSave");
        assert("textDocument/codeLens"@.len() != "textDocument/didSave"@.len());
        reveal_strlit("textDocument/definition");
        assert("textDocument/codeLens"@.len() != "textDocument/definition"@.len());
        reveal_strlit("textDocument/typeDefinition");
        assert("textDocument/codeLens"@.len() != "textDocument/typeDefinition"@.len());
        reveal_strlit("textDocument/declaration");
        assert("textDocument/codeLens"@.len() != "textDocument/declaration"@.len());
        reveal_strlit("textDocument/implementation");
        assert("textDocument/codeLens"@.len() != "textDocument/implementation"@.len());
        reveal_strlit("textDocument/references");
        assert("textDocument/codeLens"@.len() != "textDocument/references"@.len());
        reveal_strlit("textDocument/hover");
        assert("textDocument/codeLens"@.len() != "textDocument/hover"@.len());
        reveal_strlit("textDocument/signatureHelp");
        assert("textDocument/codeLens"@.len() != "textDocument/signatureHelp"@.len());
        reveal_strlit("textDocument/completion");
        assert("textDocument/codeLens"@.len() != "textDocument/completion"@.len());
        reveal_strlit("completionItem/resolve");
        assert("textDocument/codeLens"@.len() != "completionItem/resolve"@.len());
        reveal_strlit("textDocument/documentSymbol");
        assert("textDocument/codeLens"@.len() != "textDocument/documentSymbol"@.len());
        reveal_strlit("textDocument/codeAction");
        assert("textDocument/codeLens"@.len() != "textDocument/codeAction"@.len());
        reveal_strlit("codeAction/resolve");
        assert("textDocument/codeLens"@.len() != "codeAction/resolve"@.len());
    }
    assert(capability_of("codeLens/resolve"@) == Some("codeLensResolveProvider"@)) by {
        reveal_strlit("codeLens/resolve");
        reveal_strlit("initialize");
        assert("codeLens/resolve"@.len() != "initialize"@.len());
        reveal_strlit("initialized");
        assert("codeLens/resolve"@.len() != "initialized"@.len());
        reveal_strlit("shutdown");
        assert("codeLens/resolve"@.len() != "shutdown"@.len());
        reveal_strlit("exit");
        assert("codeLens/resolve"@.len() != "exit"@.len());
        reveal_strlit("workspace/didChangeConfiguration");
        assert("codeLens/resolve"@.len() != "workspace/didChangeConfiguration"@.len());
        reveal_strlit("workspace/didChangeWatchedFiles");
        assert("codeLens/resolve"@.len() != "workspace/didChangeWatchedFiles"@.len());
        reveal_strlit("workspace/symbol");
        assert("codeLens/resolve"@[0] != "workspace/symbol"@[0]);
        reveal_strlit("workspace/executeCommand");
        assert("codeLens/resolve"@.len() != "workspace/executeCommand"@.len());
        reveal_strlit("workspace/workspaceFolders");
        assert("codeLens/resolve"@.len() != "workspace/workspaceFolders"@.len());
        reveal_strlit("workspace/configuration");
        assert("codeLens/resolve"@.len() != "workspace/configuration"@.len());
        reveal_strlit("textDocument/didOpen");
        assert("codeLens/resolve"@.len() != "textDocument/didOpen"@.len());
        reveal_strlit("textDocument/didChange");
        assert("codeLens/resolve"@.len() != "textDocument/didChange"@.len());
        reveal_strlit("textDocument/didClose");
        assert("codeLens/resolve"@.len() != "textDocument/didClose"@.len());
        reveal_strlit("textDocument/didSave");
        assert("codeLens/resolve"@.len() != "textDocument/didSave"@.len());
        reveal_strlit("textDocument/definition");
        assert("codeLens/resolve"@.len() != "textDocument/definition"@.len());
        reveal_strlit("textDocument/typeDefinition");
        assert("codeLens/resolve"@.len() != "textDocument/typeDefinition"@.len());
        reveal_strlit("textDocument/declaration");
        assert("codeLens/resolve"@.len() != "textDocument/declaration"@.len());
        reveal_strlit("textDocument/implementation");
        assert("codeLens/resolve"@.len() != "textDocument/implementation"@.len());
        reveal_strlit("textDocument/references");
        assert("codeLens/resolve"@.len() != "textDocument/references"@.len());
        reveal_strlit("textDocument/hover");
        assert("codeLens/resolve"@.len() != "textDocument/hover"@.len());
        reveal_strlit("textDocument/signatureHelp");
        assert("codeLens/resolve"@.len() != "textDocument/signatureHelp"@.len());
        reveal_strlit("textDocument/completion");
        assert("codeLens/resolve"@.len() != "textDocument/completion"@.len());
        reveal_strlit("completionItem/resolve");
        assert("codeLens/resolve"@.len() != "completionItem/resolve"@.len());
        reveal_strlit("textDocument/documentSymbol");
        assert("codeLens/resolve"@.len() != "textDocument/documentSymbol"@.len());
        reveal_strlit("textDocument/codeAction");
        assert("codeLens/resolve"@.len() != "textDocument/codeAction"@.len());
        reveal_strlit("codeAction/resolve");
        assert("codeLens/resolve"@.len() != "codeAction/resolve"@.len());
        reveal_strlit("textDocument/codeLens");
        assert("codeLens/resolve"@.len() != "textDocument/codeLens"@.len());
    }
    assert(capability_of("textDocument/documentLink"@) == Some("documentLinkProvider"@)) by {
        reveal_strlit("textDocument/documentLink");
        reveal_strlit("initialize");
        assert("textDocument/documentLink"@.len() != "initialize"@.len());
        reveal_strlit("initialized");
        assert("textDocument/documentLink"@.len() != "initialized"@.len());
        reveal_strlit("shutdown");
        assert("textDocument/documentLink"@.len() != "shutdown"@.len());
        reveal_strlit("exit");
        assert("textDocument/documentLink"@.len() != "exit"@.len());
        reveal_strlit("workspace/didChangeConfiguration");
        assert("textDocument/documentLink"@.len() != "workspace/didChangeConfiguration"@.len());
        reveal_strlit("workspace/didChangeWatchedFiles");
        assert("textDocument/documentLink"@.len() != "workspace/didChangeWatchedFiles"@.len());
        reveal_strlit("workspace/symbol");
        assert("textDocument/documentLink"@.len() != "workspace/symbol"@.len());
        reveal_strlit("workspace/executeCommand");
        assert("textDocument/documentLink"@.len() != "workspace/executeCommand"@.len());
        reveal_strlit("workspace/workspaceFolders");
        assert("textDocument/documentLink"@.len() != "workspace/workspaceFolders"@.len());
        reveal_strlit("workspace/configuration");
        assert("textDocument/documentLink"@.len() != "workspace/configuration"@.len());
        reveal_strlit("textDocument/didOpen");
        assert("textDocument/documentLink"@.len() != "textDocument/didOpen"@.len());
        reveal_strlit("textDocument/didChange");
        assert("textDocument/documentLink"@.len() != "textDocument/didChange"@.len());
        reveal_strlit("textDocument/didClose");
        assert("textDocument/documentLink"@.len() != "textDocument/didClose"@.len());
        reveal_strlit("textDocument/didSave");
        assert("textDocument/documentLink"@.len() != "textDocument/didSave"@.len());
        reveal_strlit("textDocument/definition");
        assert("textDocument/documentLink"@.len() != "textDocument/definition"@.len());
        reveal_strlit("textDocument/typeDefinition");
        assert("textDocument/documentLink"@.len() != "textDocument/typeDefinition"@.len());
        reveal_strlit("textDocument/declaration");
        assert("textDocument/documentLink"@.len() != "textDocument/declaration"@.len());
        reveal_strlit("textDocument/implementation");
        assert("textDocument/documentLink"@.len() != "textDocument/implementation"@.len());
        reveal_strlit("textDocument/references");
        assert("textDocument/documentLink"@.len() != "textDocument/references"@.len());
        reveal_strlit("textDocument/hover");
        assert("textDocument/documentLink"@.len() != "textDocument/hover"@.len());
        reveal_strlit("textDocument/signatureHelp");
        assert("textDocument/documentLink"@.len() != "textDocument/signatureHelp"@.len());
        reveal_strlit("textDocument/completion");
        assert("textDocument/documentLink"@.len() != "textDocument/completion"@.len());
        reveal_strlit("completionItem/resolve");
        assert("textDocument/documentLink"@.len() != "completionItem/resolve"@.len());
        reveal_strlit("textDocument/documentSymbol");
        assert("textDocument/documentLink"@.len() != "textDocument/documentSymbol"@.len());
        reveal_strlit("textDocument/codeAction");
        assert("textDocument/documentLink"@.len() != "textDocument/codeAction"@.len());
        reveal_strlit("codeAction/resolve");
        assert("textDocument/documentLink"@.len() != "codeAction/resolve"@.len());
        reveal_strlit("textDocument/codeLens");
        assert("textDocument/documentLink"@.len() != "textDocument/codeLens"@.len());
        reveal_strlit("codeLens/resolve");
        assert("textDocument/documentLink"@.len() != "codeLens/resolve"@.len());
    }
    assert(capability_of("documentLink/resolve"@) == Some("documentLinkResolveProvider"@)) by {
        reveal_strlit("documentLink/resolve");
        reveal_strlit("initialize");
        assert("documentLink/resolve"@.len() != "initialize"@.len());
        reveal_strlit("initialized");
        assert("documentLink/resolve"@.len() != "initialized"@.len());
        reveal_strlit("shutdown");
        assert("documentLink/resolve"@.len() != "shutdown"@.len());
        reveal_strlit("exit");
        assert("documentLink/resolve"@.len() != "exit"@.len());
        reveal_strlit("workspace/didChangeConfiguration");
        assert("documentLink/resolve"@.len() != "workspace/didChangeConfiguration"@.len());
        reveal_strlit("workspace/didChangeWatchedFiles");
        assert("documentLink/resolve"@.len() != "workspace/didChangeWatchedFiles"@.len());
        reveal_strlit("workspace/symbol");
        assert("documentLink/resolve"@.len() != "workspace/symbol"@.len());
        reveal_strlit("workspace/executeCommand");
        assert("documentLink/resolve"@.len() != "workspace/executeCommand"@.len());
        reveal_strlit("workspace/workspaceFolders");
        assert("documentLink/resolve"@.len() != "workspace/workspaceFolders"@.len());
        reveal_strlit("workspace/configuration");
        assert("documentLink/resolve"@.len() != "workspace/configuration"@.len());
        reveal_strlit("textDocument/didOpen");
        assert("documentLink/resolve"@[0] != "textDocument/didOpen"@[0]);
        reveal_strlit("textDocument/didChange");
        assert("documentLink/resolve"@.len() != "textDocument/didChange"@.len());
        reveal_strlit("textDocument/didClose");
        assert("documentLink/resolve"@.len() != "textDocument/didClose"@.len());
        reveal_strlit("textDocument/didSave");
        assert("documentLink/resolve"@[0] != "textDocument/didSave"@[0]);
        reveal_strlit("textDocument/definition");
        assert("documentLink/resolve"@.len() != "textDocument/definition"@.len());
        reveal_strlit("textDocument/typeDefinition");
        assert("documentLink/resolve"@.len() != "textDocument/typeDefinition"@.len());
        reveal_strlit("textDocument/declaration");
        assert("documentLink/resolve"@.len() != "textDocument/declaration"@.len());
        reveal_strlit("textDocument/implementation");
        assert("documentLink/resolve"@.len() != "textDocument/implementation"@.len());
        reveal_strlit("textDocument/references");
        assert("documentLink/resolve"@.len() != "textDocument/references"@.len());
        reveal_strlit("textDocument/hover");
        assert("documentLink/resolve"@.len() != "textDocument/hover"@.len());
        reveal_strlit("textDocument/signatureHelp");
        assert("documentLink/resolve"@.len() != "textDocument/signatureHelp"@.len());
        reveal_strlit("textDocument/completion");
        assert("documentLink/resolve"@.len() != "textDocument/completion"@.len());
        reveal_strlit("completionItem/resolve");
        assert("documentLink/resolve"@.len() != "completionItem/resolve"@.len());
        reveal_strlit("textDocument/documentSymbol");
        assert("documentLink/resolve"@.len() != "textDocument/documentSymbol"@.len());
        reveal_strlit("textDocument/codeAction");
        assert("documentLink/resolve"@.len() != "textDocument/codeAction"@.len());
        reveal_strlit("codeAction/resolve");
        assert("documentLink/resolve"@.len() != "codeAction/resolve"@.len());
        reveal_strlit("textDocument/codeLens");
        assert("documentLink/resolve"@.len() != "textDocument/codeLens"@.len());
        reveal_strlit("codeLens/resolve");
        assert("documentLink/resolve"@.len() != "codeLens/resolve"@.len());
        reveal_strlit("textDocument/documentLink");
        assert("documentLink/resolve"@.len() != "textDocument/documentLink"@.len());
    }
    assert(capability_of("textDocument/documentHighlight"@) == Some("documentHighlightProvider"@)) by {
        reveal_strlit("textDocument/documentHighlight");
        reveal_strlit("initialize");
        assert("textDocument/documentHighlight"@.len() != "initialize"@.len());
        reveal_strlit("initialized");
        assert("textDocument/documentHighlight"@.len() != "initialized"@.len());
        reveal_strlit("shutdown");
        assert("textDocument/documentHighlight"@.len() != "shutdown"@.len());
        reveal_strlit("exit");
        assert("textDocument/documentHighlight"@.len() != "exit"@.len());
        reveal_strlit("workspace/didChangeConfiguration");
        assert("textDocument/documentHighlight"@.len() != "workspace/didChangeConfiguration"@.len());
        reveal_strlit("workspace/didChangeWatchedFiles");
        assert("textDocument/documentHighlight"@.len() != "workspace/didChangeWatchedFiles"@.len());
        reveal_strlit("workspace/symbol");
        assert("textDocument/documentHighlight"@.len() != "workspace/symbol"@.len());
        reveal_strlit("workspace/executeCommand");
        assert("textDocument/documentHighlight"@.len() != "workspace/executeCommand"@.len());
        reveal_strlit("workspace/workspaceFolders");
        assert("textDocument/documentHighlight"@.len() != "workspace/workspaceFolders"@.len());
        reveal_strlit("workspace/configuration");
        assert("textDocument/documentHighlight"@.len() != "workspace/configuration"@.len());
        reveal_strlit("textDocument/didOpen");
        assert("textDocument/documentHighlight"@.len() != "textDocument/didOpen"@.len());
        reveal_strlit("textDocument/didChange");
        assert("textDocument/documentHighlight"@.len() != "textDocument/didChange"@.len());
        reveal_strlit("textDocument/didClose");
        assert("textDocument/documentHighlight"@.len() != "textDocument/didClose"@.len());
        reveal_strlit("textDocument/didSave");
        assert("textDocument/documentHighlight"@.len() != "textDocument/didSave"@.len());
        reveal_strlit("textDocument/definition");
        assert("textDocument/documentHighlight"@.len() != "textDocument/definition"@.len());
        reveal_strlit("textDocument/typeDefinition");
        assert("textDocument/documentHighlight"@.len() != "textDocument/typeDefinition"@.len());
        reveal_strlit("textDocument/declaration");
        assert("textDocument/documentHighlight"@.len() != "textDocument/declaration"@.len());
        reveal_strlit("textDocument/implementation");
        assert("textDocument/documentHighlight"@.len() != "textDocument/implementation"@.len());
        reveal_strlit("textDocument/references");
        assert("textDocument/documentHighlight"@.len() != "textDocument/references"@.len());
        reveal_strlit("textDocument/hover");
        assert("textDocument/documentHighlight"@.len() != "textDocument/hover"@.len());
        reveal_strlit("textDocument/signatureHelp");
        assert("textDocument/documentHighlight"@.len() != "textDocument/signatureHelp"@.len());
        reveal_strlit("textDocument/completion");
        assert("textDocument/documentHighlight"@.len() != "textDocument/completion"@.len());
        reveal_strlit("completionItem/resolve");
        assert("textDocument/documentHighlight"@.len() != "completionItem/resolve"@.len());
        reveal_strlit("textDocument/documentSymbol");
        assert("textDocument/documentHighlight"@.len() != "textDocument/documentSymbol"@.len());
        reveal_strlit("textDocument/codeAction");
        assert("textDocument/documentHighlight"@.len() != "textDocument/codeAction"@.len());
        reveal_strlit("codeAction/resolve");
        assert("textDocument/documentHighlight"@.len() != "codeAction/resolve"@.len());
        reveal_strlit("textDocument/codeLens");
        assert("textDocument/documentHighlight"@.len() != "textDocument/codeLens"@.len());
        reveal_strlit("codeLens/resolve");
        assert("textDocument/documentHighlight"@.len() != "codeLens/resolve"@.len());
        reveal_strlit("textDocument/documentLink");
        assert("textDocument/documentHighlight"@.len() != "textDocument/documentLink"@.len());
        reveal_strlit("documentLink/resolve");
        assert("textDocument/documentHighlight"@.len() != "documentLink/resolve"@.len());
    }
    assert(capability_of("textDocument/formatting"@) == Some("formattingProvider"@)) by {
        reveal_strlit("textDocument/formatting");
        reveal_strlit("initialize");
        assert("textDocument/formatting"@.len() != "initialize"@.len());
        reveal_strlit("initialized");
        assert("textDocument/formatting"@.len() != "initialized"@.len());
        reveal_strlit("shutdown");
        assert("textDocument/formatting"@.len() != "shutdown"@.len());
        reveal_strlit("exit");
        assert("textDocument/formatting"@.len() != "exit"@.len());
        reveal_strlit("workspace/didChangeConfiguration");
        assert("textDocument/formatting"@.len() != "workspace/didChangeConfiguration"@.len());
        reveal_strlit("workspace/didChangeWatchedFiles");
        assert("textDocument/formatting"@.len() != "workspace/didChangeWatchedFiles"@.len());
        reveal_strlit("workspace/symbol");
        assert("textDocument/formatting"@.len() != "workspace/symbol"@.len());
        reveal_strlit("workspace/executeCommand");
        assert("textDocument/formatting"@.len() != "workspace/executeCommand"@.len());
        reveal_strlit("workspace/workspaceFolders");
        assert("textDocument/formatting"@.len() != "workspace/workspaceFolders"@.len());
        reveal_strlit("workspace/configuration");
        assert("textDocument/formatting"@[0] != "workspace/configuration"@[0]);
        reveal_strlit("textDocument/didOpen");
        assert("textDocument/formatting"@.len() != "textDocument/didOpen"@.len());
        reveal_strlit("textDocument/didChange");
        assert("textDocument/formatting"@.len() != "textDocument/didChange"@.len());
        reveal_strlit("textDocument/didClose");
        assert("textDocument/formatting"@.len() != "textDocument/didClose"@.len());
        reveal_strlit("textDocument/didSave");
        assert("textDocument/formatting"@.len() != "textDocument/didSave"@.len());
        reveal_strlit("textDocument/definition");
        assert("textDocument/formatting"@[13] != "textDocument/definition"@[13]);
        reveal_strlit("textDocument/typeDefinition");
        assert("textDocument/formatting"@.len() != "textDocument/typeDefinition"@.len());
        reveal_strlit("textDocument/declaration");
        assert("textDocument/formatting"@.len() != "textDocument/declaration"@.len());
        reveal_strlit("textDocument/implementation");
        assert("textDocument/formatting"@.len() != "textDocument/implementation"@.len());
        reveal_strlit("textDocument/references");
        assert("textDocument/formatting"@[13] != "textDocument/references"@[13]);
        reveal_strlit("textDocument/hover");
        assert("textDocument/formatting"@.len() != "textDocument/hover"@.len());
        reveal_strlit("textDocument/signatureHelp");
        assert("textDocument/formatting"@.len() != "textDocument/signatureHelp"@.len());
        reveal_strlit("textDocument/completion");
        assert("textDocument/formatting"@[13] != "textDocument/completion"@[13]);
        reveal_strlit("completionItem/resolve");
        assert("textDocument/formatting"@.len() != "completionItem/resolve"@.len());
        reveal_strlit("textDocument/documentSymbol");
        assert("textDocument/formatting"@.len() != "textDocument/documentSymbol"@.len());
        reveal_strlit("textDocument/codeAction");
        assert("textDocument/formatting"@[13] != "textDocument/codeAction"@[13]);
        reveal_strlit("codeAction/resolve");
        assert("textDocument/formatting"@.len() != "codeAction/resolve"@.len());
        reveal_strlit("textDocument/codeLens");
        assert("textDocument/formatting"@.len() != "textDocument/codeLens"@.len());
        reveal_strlit("codeLens/resolve");
        assert("textDocument/formatting"@.len() != "codeLens/resolve"@.len());
        reveal_strlit("textDocument/documentLink");
        assert("textDocument/formatting"@.len() != "textDocument/documentLink"@.len());
        reveal_strlit("documentLink/resolve");
        assert("textDocument/formatting"@.len() != "documentLink/resolve"@.len());
        reveal_strlit("textDocument/documentHighlight");
        assert("textDocument/formatting"@.len() != "textDocument/documentHighlight"@.len());
    }
    assert(capability_of("textDocument/rangeFormatting"@) == Some("rangeFormattingProvider"@)) by {
        reveal_strlit("textDocument/rangeFormatting");
        reveal_strlit("initialize");
        assert("textDocument/rangeFormatting"@.len() != "initialize"@.len());
        reveal_strlit("initialized");
        assert("textDocument/rangeFormatting"@.len() != "initialized"@.len());
        reveal_strlit("shutdown");
        assert("textDocument/rangeFormatting"@.len() != "shutdown"@.len());
        reveal_strlit("exit");
        assert("textDocument/rangeFormatting"@.len() != "exit"@.len());
        reveal_strlit("workspace/didChangeConfiguration");
        assert("textDocument/rangeFormatting"@.len() != "workspace/didChangeConfiguration"@.len());
        reveal_strlit("workspace/didChangeWatchedFiles");
        assert("textDocument/rangeFormatting"@.len() != "workspace/didChangeWatchedFiles"@.len());
        reveal_strlit("workspace/symbol");
        assert("textDocument/rangeFormatting"@.len() != "workspace/symbol"@.len());
        reveal_strlit("workspace/executeCommand");
        assert("textDocument/rangeFormatting"@.len() != "workspace/executeCommand"@.len());
        reveal_strlit("workspace/workspaceFolders");
        assert("textDocument/rangeFormatting"@.len() != "workspace/workspaceFolders"@.len());
        reveal_strlit("workspace/configuration");
        assert("textDocument/rangeFormatting"@.len() != "workspace/configuration"@.len());
        reveal_strlit("textDocument/didOpen");
        assert("textDocument/rangeFormatting"@.len() != "textDocument/didOpen"@.len());
        reveal_strlit("textDocument/didChange");
        assert("textDocument/rangeFormatting"@.len() != "textDocument/didChange"@.len());
        reveal_strlit("textDocument/didClose");
        assert("textDocument/rangeFormatting"@.len() != "textDocument/didClose"@.len());
        reveal_strlit("textDocument/didSave");
        assert("textDocument/rangeFormatting"@.len() != "textDocument/didSave"@.len());
        reveal_strlit("textDocument/definition");
        assert("textDocument/rangeFormatting"@.len() != "textDocument/definition"@.len());
        reveal_strlit("textDocument/typeDefinition");
        assert("textDocument/rangeFormatting"@.len() != "textDocument/typeDefinition"@.len());
        reveal_strlit("textDocument/declaration");
        assert("textDocument/rangeFormatting"@.len() != "textDocument/declaration"@.len());
        reveal_strlit("textDocument/implementation");
        assert("textDocument/rangeFormatting"@.len() != "textDocument/implementation"@.len());
        reveal_strlit("textDocument/references");
        assert("textDocument/rangeFormatting"@.len() != "textDocument/references"@.len());
        reveal_strlit("textDocument/hover");
        assert("textDocument/rangeFormatting"@.len() != "textDocument/hover"@.len());
        reveal_strlit("textDocument/signatureHelp");
        assert("textDocument/rangeFormatting"@.len() != "textDocument/signatureHelp"@.len());
        reveal_strlit("textDocument/completion");
        assert("textDocument/rangeFormatting"@.len() != "textDocument/completion"@.len());
        reveal_strlit("completionItem/resolve");
        assert("textDocument/rangeFormatting"@.len() != "completionItem/resolve"@.len());
        reveal_strlit("textDocument/documentSymbol");
        assert("textDocument/rangeFormatting"@.len() != "textDocument/documentSymbol"@.len());
        reveal_strlit("textDocument/codeAction");
        assert("textDocument/rangeFormatting"@.len() != "textDocument/codeAction"@.len());
        reveal_strlit("codeAction/resolve");
        assert("textDocument/rangeFormatting"@.len() != "codeAction/resolve"@.len());
        reveal_strlit("textDocument/codeLens");
        assert("textDocument/rangeFormatting"@.len() != "textDocument/codeLens"@.len());
        reveal_strlit("codeLens/resolve");
        assert("textDocument/rangeFormatting"@.len() != "codeLens/resolve"@.len());
        reveal_strlit("textDocument/documentLink");
        assert("textDocument/rangeFormatting"@.len() != "textDocument/documentLink"@.len());
        reveal_strlit("documentLink/resolve");
        assert("textDocument/rangeFormatting"@.len() != "documentLink/resolve"@.len());
        reveal_strlit("textDocument/documentHighlight");
        assert("textDocument/rangeFormatting"@.len() != "textDocument/documentHighlight"@.len());
        reveal_strlit("textDocument/formatting");
        assert("textDocument/rangeFormatting"@.len() != "textDocument/formatting"@.len());
    }
    assert(capability_of("textDocument/onTypeFormatting"@) == Some("onTypeFormattingProvider"@)) by {
        reveal_strlit("textDocument/onTypeFormatting");
        reveal_strlit("initialize");
        assert("textDocument/onTypeFormatting"@.len() != "initialize"@.len());
        reveal_strlit("initialized");
        assert("textDocument/onTypeFormatting"@.len() != "initialized"@.len());
        reveal_strlit("shutdown");
        assert("textDocument/onTypeFormatting"@.len() != "shutdown"@.len());
        reveal_strlit("exit");
        assert("textDocument/onTypeFormatting"@.len() != "exit"@.len());
        reveal_strlit("workspace/didChangeConfiguration");
        assert("textDocument/onTypeFormatting"@.len() != "workspace/didChangeConfiguration"@.len());
        reveal_strlit("workspace/didChangeWatchedFiles");
        assert("textDocument/onTypeFormatting"@.len() != "workspace/didChangeWatchedFiles"@.len());
        reveal_strlit("workspace/symbol");
        assert("textDocument/onTypeFormatting"@.len() != "workspace/symbol"@.len());
        reveal_strlit("workspace/executeCommand");
        assert("textDocument/onTypeFormatting"@.len() != "workspace/executeCommand"@.len());
        reveal_strlit("workspace/workspaceFolders");
        assert("textDocument/onTypeFormatting"@.len() != "workspace/workspaceFolders"@.len());
        reveal_strlit("workspace/configuration");
        assert("textDocument/onTypeFormatting"@.len() != "workspace/configuration"@.len());
        reveal_strlit("textDocument/didOpen");
        assert("textDocument/onTypeFormatting"@.len() != "textDocument/didOpen"@.len());
        reveal_strlit("textDocument/didChange");
        assert("textDocument/onTypeFormatting"@.len() != "textDocument/didChange"@.len());
        reveal_strlit("textDocument/didClose");
        assert("textDocument/onTypeFormatting"@.len() != "textDocument/didClose"@.len());
        reveal_strlit("textDocument/didSave");
        assert("textDocument/onTypeFormatting"@.len() != "textDocument/didSave"@.len());
        reveal_strlit("textDocument/definition");
        assert("textDocument/onTypeFormatting"@.len() != "textDocument/definition"@.len());
        reveal_strlit("textDocument/typeDefinition");
        assert("textDocument/onTypeFormatting"@.len() != "textDocument/typeDefinition"@.len());
        reveal_strlit("textDocument/declaration");
        assert("textDocument/onTypeFormatting"@.len() != "textDocument/declaration"@.len());
        reveal_strlit("textDocument/implementation");
        assert("textDocument/onTypeFormatting"@.len() != "textDocument/implementation"@.len());
        reveal_strlit("textDocument/references");
        assert("textDocument/onTypeFormatting"@.len() != "textDocument/references"@.len());
        reveal_strlit("textDocument/hover");
        assert("textDocument/onTypeFormatting"@.len() != "textDocument/hover"@.len());
        reveal_strlit("textDocument/signatureHelp");
        assert("textDocument/onTypeFormatting"@.len() != "textDocument/signatureHelp"@.len());
        reveal_strlit("textDocument/completion");
        assert("textDocument/onTypeFormatting"@.len() != "textDocument/completion"@.len());
        reveal_strlit("completionItem/resolve");
        assert("textDocument/onTypeFormatting"@.len() != "completionItem/resolve"@.len());
        reveal_strlit("textDocument/documentSymbol");
        assert("textDocument/onTypeFormatting"@.len() != "textDocument/documentSymbol"@.len());
        reveal_strlit("textDocument/codeAction");
        assert("textDocument/onTypeFormatting"@.len() != "textDocument/codeAction"@.len());
        reveal_strlit("codeAction/resolve");
        assert("textDocument/onTypeFormatting"@.len() != "codeAction/resolve"@.len());
        reveal_strlit("textDocument/codeLens");
        assert("textDocument/onTypeFormatting"@.len() != "textDocument/codeLens"@.len());
        reveal_strlit("codeLens/resolve");
        assert("textDocument/onTypeFormatting"@.len() != "codeLens/resolve"@.len());
        reveal_strlit("textDocument/documentLink");
        assert("textDocument/onTypeFormatting"@.len() != "textDocument/documentLink"@.len());
        reveal_strlit("documentLink/resolve");
        assert("textDocument/onTypeFormatting"@.len() != "documentLink/resolve"@.len());
        reveal_strlit("textDocument/documentHighlight");
        assert("textDocument/onTypeFormatting"@.len() != "textDocument/documentHighlight"@.len());
        reveal_strlit("textDocument/formatting");
        assert("textDocument/onTypeFormatting"@.len() != "textDocument/formatting"@.len());
        reveal_strlit("textDocument/rangeFormatting");
        assert("textDocument/onTypeFormatting"@.len() != "textDocument/rangeFormatting"@.len());
    }
    assert(capability_of("textDocument/rename"@) == Some("renameProvider"@)) by {
        reveal_strlit("textDocument/rename");
        reveal_strlit("initialize");
        assert("textDocument/rename"@.len() != "initialize"@.len());
        reveal_strlit("initialized");
        assert("textDocument/rename"@.len() != "initialized"@.len());
        reveal_strlit("shutdown");
        assert("textDocument/rename"@.len() != "shutdown"@.len());
        reveal_strlit("exit");
        assert("textDocument/rename"@.len() != "exit"@.len());
        reveal_strlit("workspace/didChangeConfiguration");
        assert("textDocument/rename"@.len() != "workspace/didChangeConfiguration"@.len());
        reveal_strlit("workspace/didChangeWatchedFiles");
        assert("textDocument/rename"@.len() != "workspace/didChangeWatchedFiles"@.len());
        reveal_strlit("workspace/symbol");
        assert("textDocument/rename"@.len() != "workspace/symbol"@.len());
        reveal_strlit("workspace/executeCommand");
        assert("textDocument/rename"@.len() != "workspace/executeCommand"@.len());
        reveal_strlit("workspace/workspaceFolders");
        assert("textDocument/rename"@.len() != "workspace/workspaceFolders"@.len());
        reveal_strlit("workspace/configuration");
        assert("textDocument/rename"@.len() != "workspace/configuration"@.len());
        reveal_strlit("textDocument/didOpen");
        assert("textDocument/rename"@.len() != "textDocument/didOpen"@.len());
        reveal_strlit("textDocument/didChange");
        assert("textDocument/rename"@.len() != "textDocument/didChange"@.len());
        reveal_strlit("textDocument/didClose");
        assert("textDocument/rename"@.len() != "textDocument/didClose"@.len());
        reveal_strlit("textDocument/didSave");
        assert("textDocument/rename"@.len() != "textDocument/didSave"@.len());
        reveal_strlit("textDocument/definition");
        assert("textDocument/rename"@.len() != "textDocument/definition"@.len());
        reveal_strlit("textDocument/typeDefinition");
        assert("textDocument/rename"@.len() != "textDocument/typeDefinition"@.len());
        reveal_strlit("textDocument/declaration");
        assert("textDocument/rename"@.len() != "textDocument/declaration"@.len());
        reveal_strlit("textDocument/implementation");
        assert("textDocument/rename"@.len() != "textDocument/implementation"@.len());
        reveal_strlit("textDocument/references");
        assert("textDocument/rename"@.len() != "textDocument/references"@.len());
        reveal_strlit("textDocument/hover");
        assert("textDocument/rename"@.len() != "textDocument/hover"@.len());
        reveal_strlit("textDocument/signatureHelp");
        assert("textDocument/rename"@.len() != "textDocument/signatureHelp"@.len());
        reveal_strlit("textDocument/completion");
        assert("textDocument/rename"@.len() != "textDocument/completion"@.len());
        reveal_strlit("completionItem/resolve");
        assert("textDocument/rename"@.len() != "completionItem/resolve"@.len());
        reveal_strlit("textDocument/documentSymbol");
        assert("textDocument/rename"@.len() != "textDocument/documentSymbol"@.len());
        reveal_strlit("textDocument/codeAction");
        assert("textDocument/rename"@.len() != "textDocument/codeAction"@.len());
        reveal_strlit("codeAction/resolve");
        assert("textDocument/rename"@.len() != "codeAction/resolve"@.len());
        reveal_strlit("textDocument/codeLens");
        assert("textDocument/rename"@.len() != "textDocument/codeLens"@.len());
        reveal_strlit("codeLens/resolve");
        assert("textDocument/rename"@.len() != "codeLens/resolve"@.len());
        reveal_strlit("textDocument/documentLink");
        assert("textDocument/rename"@.len() != "textDocument/documentLink"@.len());
        reveal_strlit("documentLink/resolve");
        assert("textDocument/rename"@.len() != "documentLink/resolve"@.len());
        reveal_strlit("textDocument/documentHighlight");
        assert("textDocument/rename"@.len() != "textDocument/documentHighlight"@.len());
        reveal_strlit("textDocument/formatting");
        assert("textDocument/rename"@.len() != "textDocument/formatting"@.len());
        reveal_strlit("textDocument/rangeFormatting");
        assert("textDocument/rename"@.len() != "textDocument/rangeFormatting"@.len());
        reveal_strlit("textDocument/onTypeFormatting");
        assert("textDocument/rename"@.len() != "textDocument/onTypeFormatting"@.len());
    }
    assert(capability_of("textDocument/foldingRange"@) == Some("foldingRangeProvider"@)) by {
        reveal_strlit("textDocument/foldingRange");
        reveal_strlit("initialize");
        assert("textDocument/foldingRange"@.len() != "initialize"@.len());
        reveal_strlit("initialized");
        assert("textDocument/foldingRange"@.len() != "initialized"@.len());
        reveal_strlit("shutdown");
        assert("textDocument/foldingRange"@.len() != "shutdown"@.len());
        reveal_strlit("exit");
        assert("textDocument/foldingRange"@.len() != "exit"@.len());
        reveal_strlit("workspace/didChangeConfiguration");
        assert("textDocument/foldingRange"@.len() != "workspace/didChangeConfiguration"@.len());
        reveal_strlit("workspace/didChangeWatchedFiles");
        assert("textDocument/foldingRange"@.len() != "workspace/didChangeWatchedFiles"@.len());
        reveal_strlit("workspace/symbol");
        assert("textDocument/foldingRange"@.len() != "workspace/symbol"@.len());
        reveal_strlit("workspace/executeCommand");
        assert("textDocument/foldingRange"@.len() != "workspace/executeCommand"@.len());
        reveal_strlit("workspace/workspaceFolders");
        assert("textDocument/foldingRange"@.len() != "workspace/workspaceFolders"@.len());
        reveal_strlit("workspace/configuration");
        assert("textDocument/foldingRange"@.len() != "workspace/configuration"@.len());
        reveal_strlit("textDocument/didOpen");
        assert("textDocument/foldingRange"@.len() != "textDocument/didOpen"@.len());
        reveal_strlit("textDocument/didChange");
        assert("textDocument/foldingRange"@.len() != "textDocument/didChange"@.len());
        reveal_strlit("textDocument/didClose");
        assert("textDocument/foldingRange"@.len() != "textDocument/didClose"@.len());
        reveal_strlit("textDocument/didSave");
        assert("textDocument/foldingRange"@.len() != "textDocument/didSave"@.len());
        reveal_strlit("textDocument/definition");
        assert("textDocument/foldingRange"@.len() != "textDocument/definition"@.len());
        reveal_strlit("textDocument/typeDefinition");
        assert("textDocument/foldingRange"@.len() != "textDocument/typeDefinition"@.len());
        reveal_strlit("textDocument/declaration");
        assert("textDocument/foldingRange"@.len() != "textDocument/declaration"@.len());
        reveal_strlit("textDocument/implementation");
        assert("textDocument/foldingRange"@.len() != "textDocument/implementation"@.len());
        reveal_strlit("textDocument/references");
        assert("textDocument/foldingRange"@.len() != "textDocument/references"@.len());
        reveal_strlit("textDocument/hover");
        assert("textDocument/foldingRange"@.len() != "textDocument/hover"@.len());
        reveal_strlit("textDocument/signatureHelp");
        assert("textDocument/foldingRange"@.len() != "textDocument/signatureHelp"@.len());
        reveal_strlit("textDocument/completion");
        assert("textDocument/foldingRange"@.len() != "textDocument/completion"@.len());
        reveal_strlit("completionItem/resolve");
        assert("textDocument/foldingRange"@.len() != "completionItem/resolve"@.len());
        reveal_strlit("textDocument/documentSymbol");
        assert("textDocument/foldingRange"@.len() != "textDocument/documentSymbol"@.len());
        reveal_strlit("textDocument/codeAction");
        assert("textDocument/foldingRange"@.len() != "textDocument/codeAction"@.len());
        reveal_strlit("codeAction/resolve");
        assert("textDocument/foldingRange"@.len() != "codeAction/resolve"@.len());
        reveal_strlit("textDocument/codeLens");
        assert("textDocument/foldingRange"@.len() != "textDocument/codeLens"@.len());
        reveal_strlit("codeLens/resolve");
        assert("textDocument/foldingRange"@.len() != "codeLens/resolve"@.len());
        reveal_strlit("textDocument/documentLink");
        assert("textDocument/foldingRange"@[13] != "textDocument/documentLink"@[13]);
        reveal_strlit("documentLink/resolve");
        assert("textDocument/foldingRange"@.len() != "documentLink/resolve"@.len());
        reveal_strlit("textDocument/documentHighlight");
        assert("textDocument/foldingRange"@.len() != "textDocument/documentHighlight"@.len());
        reveal_strlit("textDocument/formatting");
        assert("textDocument/foldingRange"@.len() != "textDocument/formatting"@.len());
        reveal_strlit("textDocument/rangeFormatting");
        assert("textDocument/foldingRange"@.len() != "textDocument/rangeFormatting"@.len());
        reveal_strlit("textDocument/onTypeFormatting");
        assert("textDocument/foldingRange"@.len() != "textDocument/onTypeFormatting"@.len());
        reveal_strlit("textDocument/rename");
        assert("textDocument/foldingRange"@.len() != "textDocument/rename"@.len());
    }
    assert(capability_of("textDocument/selectionRange"@) == Some("selectionRangeProvider"@)) by {
        reveal_strlit("textDocument/selectionRange");
        reveal_strlit("initialize");
        assert("textDocument/selectionRange"@.len() != "initialize"@.len());
        reveal_strlit("initialized");
        assert("textDocument/selectionRange"@.len() != "initialized"@.len());
        reveal_strlit("shutdown");
        assert("textDocument/selectionRange"@.len() != "shutdown"@.len());
        reveal_strlit("exit");
        assert("textDocument/selectionRange"@.len() != "exit"@.len());
        reveal_strlit("workspace/didChangeConfiguration");
        assert("textDocument/selectionRange"@.len() != "workspace/didChangeConfiguration"@.len());
        reveal_strlit("workspace/didChangeWatchedFiles");
        assert("textDocument/selectionRange"@.len() != "workspace/didChangeWatchedFiles"@.len());
        reveal_strlit("workspace/symbol");
        assert("textDocument/selectionRange"@.len() != "workspace/symbol"@.len());
        reveal_strlit("workspace/executeCommand");
        assert("textDocument/selectionRange"@.len() != "workspace/executeCommand"@.len());
        reveal_strlit("workspace/workspaceFolders");
        assert("textDocument/selectionRange"@.len() != "workspace/workspaceFolders"@.len());
        reveal_strlit("workspace/configuration");
        assert("textDocument/selectionRange"@.len() != "workspace/configuration"@.len());
        reveal_strlit("textDocument/didOpen");
        assert("textDocument/selectionRange"@.len() != "textDocument/didOpen"@.len());
        reveal_strlit("textDocument/didChange");
        assert("textDocument/selectionRange"@.len() != "textDocument/didChange"@.len());
        reveal_strlit("textDocument/didClose");
        assert("textDocument/selectionRange"@.len() != "textDocument/didClose"@.len());
        reveal_strlit("textDocument/didSave");
        assert("textDocument/selectionRange"@.len() != "textDocument/didSave"@.len());
        reveal_strlit("textDocument/definition");
        assert("textDocument/selectionRange"@.len() != "textDocument/definition"@.len());
        reveal_strlit("textDocument/typeDefinition");
        assert("textDocument/selectionRange"@[13] != "textDocument/typeDefinition"@[13]);
        reveal_strlit("textDocument/declaration");
        assert("textDocument/selectionRange"@.len() != "textDocument/declaration"@.len());
        reveal_strlit("textDocument/implementation");
        assert("textDocument/selectionRange"@[13] != "textDocument/implementation"@[13]);
        reveal_strlit("textDocument/references");
        assert("textDocument/selectionRange"@.len() != "textDocument/references"@.len());
        reveal_strlit("textDocument/hover");
        assert("textDocument/selectionRange"@.len() != "textDocument/hover"@.len());
        reveal_strlit("textDocument/signatureHelp");
        assert("textDocument/selectionRange"@.len() != "textDocument/signatureHelp"@.len());
        reveal_strlit("textDocument/completion");
        assert("textDocument/selectionRange"@.len() != "textDocument/completion"@.len());
        reveal_strlit("completionItem/resolve");
        assert("textDocument/selectionRange"@.len() != "completionItem/resolve"@.len());
        reveal_strlit("textDocument/documentSymbol");
        assert("textDocument/selectionRange"@[13] != "textDocument/documentSymbol"@[13]);
        reveal_strlit("textDocument/codeAction");
        assert("textDocument/selectionRange"@.len() != "textDocument/codeAction"@.len());
        reveal_strlit("codeAction/resolve");
        assert("textDocument/selectionRange"@.len() != "codeAction/resolve"@.len());
        reveal_strlit("textDocument/codeLens");
        assert("textDocument/selectionRange"@.len() != "textDocument/codeLens"@.len());
        reveal_strlit("codeLens/resolve");
        assert("textDocument/selectionRange"@.len() != "codeLens/resolve"@.len());
        reveal_strlit("textDocument/documentLink");
        assert("textDocument/selectionRange"@.len() != "textDocument/documentLink"@.len());
        reveal_strlit("documentLink/resolve");
        assert("textDocument/selectionRange"@.len() != "documentLink/resolve"@.len());
        reveal_strlit("textDocument/documentHighlight");
        assert("textDocument/selectionRange"@.len() != "textDocument/documentHighlight"@.len());
        reveal_strlit("textDocument/formatting");
        assert("textDocument/selectionRange"@.len() != "textDocument/formatting"@.len());
        reveal_strlit("textDocument/rangeFormatting");
        assert("textDocument/selectionRange"@.len() != "textDocument/rangeFormatting"@.len());
        reveal_strlit("textDocument/onTypeFormatting");
        assert("textDocument/selectionRange"@.len() != "textDocument/onTypeFormatting"@.len());
        reveal_strlit("textDocument/rename");
        assert("textDocument/selectionRange"@.len() != "textDocument/rename"@.len());
        reveal_strlit("textDocument/foldingRange");
        assert("textDocument/selectionRange"@.len() != "textDocument/foldingRange"@.len());
    }
    assert(capability_of("textDocument/semanticTokens/full"@) == Some("semanticTokensFullProvider"@)) by {
        reveal_strlit("textDocument/semanticTokens/full");
        reveal_strlit("initialize");
        assert("textDocument/semanticTokens/full"@.len() != "initialize"@.len());
        reveal_strlit("initialized");
        assert("textDocument/semanticTokens/full"@.len() != "initialized"@.len());
        reveal_strlit("shutdown");
        assert("textDocument/semanticTokens/full"@.len() != "shutdown"@.len());
        reveal_strlit("exit");
        assert("textDocument/semanticTokens/full"@.len() != "exit"@.len());
        reveal_strlit("workspace/didChangeConfiguration");
        assert("textDocument/semanticTokens/full"@[0] != "workspace/didChangeConfiguration"@[0]);
        reveal_strlit("workspace/didChangeWatchedFiles");
        assert("textDocument/semanticTokens/full"@.len() != "workspace/didChangeWatchedFiles"@.len());
        reveal_strlit("workspace/symbol");
        assert("textDocument/semanticTokens/full"@.len() != "workspace/symbol"@.len());
        reveal_strlit("workspace/executeCommand");
        assert("textDocument/semanticTokens/full"@.len() != "workspace/executeCommand"@.len());
        reveal_strlit("workspace/workspaceFolders");
        assert("textDocument/semanticTokens/full"@.len() != "workspace/workspaceFolders"@.len());
        reveal_strlit("workspace/configuration");
        assert("textDocument/semanticTokens/full"@.len() != "workspace/configuration"@.len());
        reveal_strlit("textDocument/didOpen");
        assert("textDocument/semanticTokens/full"@.len() != "textDocument/didOpen"@.len());
        reveal_strlit("textDocument/didChange");
        assert("textDocument/semanticTokens/full"@.len() != "textDocument/didChange"@.len());
        reveal_strlit("textDocument/didClose");
        assert("textDocument/semanticTokens/full"@.len() != "textDocument/didClose"@.len());
        reveal_strlit("textDocument/didSave");
        assert("textDocument/semanticTokens/full"@.len() != "textDocument/didSave"@.len());
        reveal_strlit("textDocument/definition");
        assert("textDocument/semanticTokens/full"@.len() != "textDocument/definition"@.len());
        reveal_strlit("textDocument/typeDefinition");
        assert("textDocument/semanticTokens/full"@.len() != "textDocument/typeDefinition"@.len());
        reveal_strlit("textDocument/declaration");
        assert("textDocument/semanticTokens/full"@.len() != "textDocument/declaration"@.len());
        reveal_strlit("textDocument/implementation");
        assert("textDocument/semanticTokens/full"@.len() != "textDocument/implementation"@.len());
        reveal_strlit("textDocument/references");
        assert("textDocument/semanticTokens/full"@.len() != "textDocument/references"@.len());
        reveal_strlit("textDocument/hover");
        assert("textDocument/semanticTokens/full"@.len() != "textDocument/hover"@.len());
        reveal_strlit("textDocument/signatureHelp");
        assert("textDocument/semanticTokens/full"@.len() != "textDocument/signatureHelp"@.len());
        reveal_strlit("textDocument/completion");
        assert("textDocument/semanticTokens/full"@.len() != "textDocument/completion"@.len());
        reveal_strlit("completionItem/resolve");
        assert("textDocument/semanticTokens/full"@.len() != "completionItem/resolve"@.len());
        reveal_strlit("textDocument/documentSymbol");
        assert("textDocument/semanticTokens/full"@.len() != "textDocument/documentSymbol"@.len());
        reveal_strlit("textDocument/codeAction");
        assert("textDocument/semanticTokens/full"@.len() != "textDocument/codeAction"@.len());
        reveal_strlit("codeAction/resolve");
        assert("textDocument/semanticTokens/full"@.len() != "codeAction/resolve"@.len());
        reveal_strlit("textDocument/codeLens");
        assert("textDocument/semanticTokens/full"@.len() != "textDocument/codeLens"@.len());
        reveal_strlit("codeLens/resolve");
        assert("textDocument/semanticTokens/full"@.len() != "codeLens/resolve"@.len());
        reveal_strlit("textDocument/documentLink");
        assert("textDocument/semanticTokens/full"@.len() != "textDocument/documentLink"@.len());
        reveal_strlit("documentLink/resolve");
        assert("textDocument/semanticTokens/full"@.len() != "documentLink/resolve"@.len());
        reveal_strlit("textDocument/documentHighlight");
        assert("textDocument/semanticTokens/full"@.len() != "textDocument/documentHighlight"@.len());
        reveal_strlit("textDocument/formatting");
        assert("textDocument/semanticTokens/full"@.len() != "textDocument/formatting"@.len());
        reveal_strlit("textDocument/rangeFormatting");
        assert("textDocument/semanticTokens/full"@.len() != "textDocument/rangeFormatting"@.len());
        reveal_strlit("textDocument/onTypeFormatting");
        assert("textDocument/semanticTokens/full"@.len() != "textDocument/onTypeFormatting"@.len());
        reveal_strlit("textDocument/rename");
        assert("textDocument/semanticTokens/full"@.len() != "textDocument/rename"@.len());
        reveal_strlit("textDocument/foldingRange");
        assert("textDocument/semanticTokens/full"@.len() != "textDocument/foldingRange"@.len());
        reveal_strlit("textDocument/selectionRange");
        assert("textDocument/semanticTokens/full"@.len() != "textDocument/selectionRange"@.len());
    }
    assert(capability_of("textDocument/semanticTokens/range"@) == Some("semanticTokensRangeProvider"@)) by {
        reveal_strlit("textDocument/semanticTokens/range");
        reveal_strlit("initialize");
        assert("textDocument/semanticTokens/range"@.len() != "initialize"@.len());
        reveal_strlit("initialized");
        assert("textDocument/semanticTokens/range"@.len() != "initialized"@.len());
        reveal_strlit("shutdown");
        assert("textDocument/semanticTokens/range"@.len() != "shutdown"@.len());
        reveal_strlit("exit");
        assert("textDocument/semanticTokens/range"@.len() != "exit"@.len());
        reveal_strlit("workspace/didChangeConfiguration");
        assert("textDocument/semanticTokens/range"@.len() != "workspace/didChangeConfiguration"@.len());
        reveal_strlit("workspace/didChangeWatchedFiles");
        assert("textDocument/semanticTokens/range"@.len() != "workspace/didChangeWatchedFiles"@.len());
        reveal_strlit("workspace/symbol");
        assert("textDocument/semanticTokens/range"@.len() != "workspace/symbol"@.len());
        reveal_strlit("workspace/executeCommand");
        assert("textDocument/semanticTokens/range"@.len() != "workspace/executeCommand"@.len());
        reveal_strlit("workspace/workspaceFolders");
        assert("textDocument/semanticTokens/range"@.len() != "workspace/workspaceFolders"@.len());
        reveal_strlit("workspace/configuration");
        assert("textDocument/semanticTokens/range"@.len() != "workspace/configuration"@.len());
        reveal_strlit("textDocument/didOpen");
        assert("textDocument/semanticTokens/range"@.len() != "textDocument/didOpen"@.len());
        reveal_strlit("textDocument/didChange");
        assert("textDocument/semanticTokens/range"@.len() != "textDocument/didChange"@.len());
        reveal_strlit("textDocument/didClose");
        assert("textDocument/semanticTokens/range"@.len() != "textDocument/didClose"@.len());
        reveal_strlit("textDocument/didSave");
        assert("textDocument/semanticTokens/range"@.len() != "textDocument/didSave"@.len());
        reveal_strlit("textDocument/definition");
        assert("textDocument/semanticTokens/range"@.len() != "textDocument/definition"@.len());
        reveal_strlit("textDocument/typeDefinition");
        assert("textDocument/semanticTokens/range"@.len() != "textDocument/typeDefinition"@.len());
        reveal_strlit("textDocument/declaration");
        assert("textDocument/semanticTokens/range"@.len() != "textDocument/declaration"@.len());
        reveal_strlit("textDocument/implementation");
        assert("textDocument/semanticTokens/range"@.len() != "textDocument/implementation"@.len());
        reveal_strlit("textDocument/references");
        assert("textDocument/semanticTokens/range"@.len() != "textDocument/references"@.len());
        reveal_strlit("textDocument/hover");
        assert("textDocument/semanticTokens/range"@.len() != "textDocument/hover"@.len());
        reveal_strlit("textDocument/signatureHelp");
        assert("textDocument/semanticTokens/range"@.len() != "textDocument/signatureHelp"@.len());
        reveal_strlit("textDocument/completion");
        assert("textDocument/semanticTokens/range"@.len() != "textDocument/completion"@.len());
        reveal_strlit("completionItem/resolve");
        assert("textDocument/semanticTokens/range"@.len() != "completionItem/resolve"@.len());
        reveal_strlit("textDocument/documentSymbol");
        assert("textDocument/semanticTokens/range"@.len() != "textDocument/documentSymbol"@.len());
        reveal_strlit("textDocument/codeAction");
        assert("textDocument/semanticTokens/range"@.len() != "textDocument/codeAction"@.len());
        reveal_strlit("codeAction/resolve");
        assert("textDocument/semanticTokens/range"@.len() != "codeAction/resolve"@.len());
        reveal_strlit("textDocument/codeLens");
        assert("textDocument/semanticTokens/range"@.len() != "textDocument/codeLens"@.len());
        reveal_strlit("codeLens/resolve");
        assert("textDocument/semanticTokens/range"@.len() != "codeLens/resolve"@.len());
        reveal_strlit("textDocument/documentLink");
        assert("textDocument/semanticTokens/range"@.len() != "textDocument/documentLink"@.len());
        reveal_strlit("documentLink/resolve");
        assert("textDocument/semanticTokens/range"@.len() != "documentLink/resolve"@.len());
        reveal_strlit("textDocument/documentHighlight");
        assert("textDocument/semanticTokens/range"@.len() != "textDocument/documentHighlight"@.len());
        reveal_strlit("textDocument/formatting");
        assert("textDocument/semanticTokens/range"@.len() != "textDocument/formatting"@.len());
        reveal_strlit("textDocument/rangeFormatting");
        assert("textDocument/semanticTokens/range"@.len() != "textDocument/rangeFormatting"@.len());
        reveal_strlit("textDocument/onTypeFormatting");
        assert("textDocument/semanticTokens/range"@.len() != "textDocument/onTypeFormatting"@.len());
        reveal_strlit("textDocument/rename");
        assert("textDocument/semanticTokens/range"@.len() != "textDocument/rename"@.len());
        reveal_strlit("textDocument/foldingRange");
        assert("textDocument/semanticTokens/range"@.len() != "textDocument/foldingRange"@.len());
        reveal_strlit("textDocument/selectionRange");
        assert("textDocument/semanticTokens/range"@.len() != "textDocument/selectionRange"@.len());
        reveal_strlit("textDocument/semanticTokens/full");
        assert("textDocument/semanticTokens/range"@.len() != "textDocument/semanticTokens/full"@.len());
    }
    assert(capability_of("textDocument/semanticTokens/full/delta"@) == Some("semanticTokensDeltaProvider"@)) by {
        reveal_strlit("textDocument/semanticTokens/full/delta");
        reveal_strlit("initialize");
        assert("textDocument/semanticTokens/full/delta"@.len() != "initialize"@.len());
        reveal_strlit("initialized");
        assert("textDocument/semanticTokens/full/delta"@.len() != "initialized"@.len());
        reveal_strlit("shutdown");
        assert("textDocument/semanticTokens/full/delta"@.len() != "shutdown"@.len());
        reveal_strlit("exit");
        assert("textDocument/semanticTokens/full/delta"@.len() != "exit"@.len());
        reveal_strlit("workspace/didChangeConfiguration");
        assert("textDocument/semanticTokens/full/delta"@.len() != "workspace/didChangeConfiguration"@.len());
        reveal_strlit("workspace/didChangeWatchedFiles");
        assert("textDocument/semanticTokens/full/delta"@.len() != "workspace/didChangeWatchedFiles"@.len());
        reveal_strlit("workspace/symbol");
        assert("textDocument/semanticTokens/full/delta"@.len() != "workspace/symbol"@.len());
        reveal_strlit("workspace/executeCommand");
        assert("textDocument/semanticTokens/full/delta"@.len() != "workspace/executeCommand"@.len());
        reveal_strlit("workspace/workspaceFolders");
        assert("textDocument/semanticTokens/full/delta"@.len() != "workspace/workspaceFolders"@.len());
        reveal_strlit("workspace/configuration");
        assert("textDocument/semanticTokens/full/delta"@.len() != "workspace/configuration"@.len());
        reveal_strlit("textDocument/didOpen");
        assert("textDocument/semanticTokens/full/delta"@.len() != "textDocument/didOpen"@.len());
        reveal_strlit("textDocument/didChange");
        assert("textDocument/semanticTokens/full/delta"@.len() != "textDocument/didChange"@.len());
        reveal_strlit("textDocument/didClose");
        assert("textDocument/semanticTokens/full/delta"@.len() != "textDocument/didClose"@.len());
        reveal_strlit("textDocument/didSave");
        assert("textDocument/semanticTokens/full/delta"@.len() != "textDocument/didSave"@.len());
        reveal_strlit("textDocument/definition");
        assert("textDocument/semanticTokens/full/delta"@.len() != "textDocument/definition"@.len());
        reveal_strlit("textDocument/typeDefinition");
        assert("textDocument/semanticTokens/full/delta"@.len() != "textDocument/typeDefinition"@.len());
        reveal_strlit("textDocument/declaration");
        assert("textDocument/semanticTokens/full/delta"@.len() != "textDocument/declaration"@.len());
        reveal_strlit("textDocument/implementation");
        assert("textDocument/semanticTokens/full/delta"@.len() != "textDocument/implementation"@.len());
        reveal_strlit("textDocument/references");
        assert("textDocument/semanticTokens/full/delta"@.len() != "textDocument/references"@.len());
        reveal_strlit("textDocument/hover");
        assert("textDocument/semanticTokens/full/delta"@.len() != "textDocument/hover"@.len());
        reveal_strlit("textDocument/signatureHelp");
        assert("textDocument/semanticTokens/full/delta"@.len() != "textDocument/signatureHelp"@.len());
        reveal_strlit("textDocument/completion");
        assert("textDocument/semanticTokens/full/delta"@.len() != "textDocument/completion"@.len());
        reveal_strlit("completionItem/resolve");
        assert("textDocument/semanticTokens/full/delta"@.len() != "completionItem/resolve"@.len());
        reveal_strlit("textDocument/documentSymbol");
        assert("textDocument/semanticTokens/full/delta"@.len() != "textDocument/documentSymbol"@.len());
        reveal_strlit("textDocument/codeAction");
        assert("textDocument/semanticTokens/full/delta"@.len() != "textDocument/codeAction"@.len());
        reveal_strlit("codeAction/resolve");
        assert("textDocument/semanticTokens/full/delta"@.len() != "codeAction/resolve"@.len());
        reveal_strlit("textDocument/codeLens");
        assert("textDocument/semanticTokens/full/delta"@.len() != "textDocument/codeLens"@.len());
        reveal_strlit("codeLens/resolve");
        assert("textDocument/semanticTokens/full/delta"@.len() != "codeLens/resolve"@.len());
        reveal_strlit("textDocument/documentLink");
        assert("textDocument/semanticTokens/full/delta"@.len() != "textDocument/documentLink"@.len());
        reveal_strlit("documentLink/resolve");
        assert("textDocument/semanticTokens/full/delta"@.len() != "documentLink/resolve"@.len());
        reveal_strlit("textDocument/documentHighlight");
        assert("textDocument/semanticTokens/full/delta"@.len() != "textDocument/documentHighlight"@.len());
        reveal_strlit("textDocument/formatting");
        assert("textDocument/semanticTokens/full/delta"@.len() != "textDocument/formatting"@.len());
        reveal_strlit("textDocument/rangeFormatting");
        assert("textDocument/semanticTokens/full/delta"@.len() != "textDocument/rangeFormatting"@.len());
        reveal_strlit("textDocument/onTypeFormatting");
        assert("textDocument/semanticTokens/full/delta"@.len() != "textDocument/onTypeFormatting"@.len());
        reveal_strlit("textDocument/rename");
        assert("textDocument/semanticTokens/full/delta"@.len() != "textDocument/rename"@.len());
        reveal_strlit("textDocument/foldingRange");
        assert("textDocument/semanticTokens/full/delta"@.len() != "textDocument/foldingRange"@.len());
        reveal_strlit("textDocument/selectionRange");
        assert("textDocument/semanticTokens/full/delta"@.len() != "textDocument/selectionRange"@.len());
        reveal_strlit("textDocument/semanticTokens/full");
        assert("textDocument/semanticTokens/full/delta"@.len() != "textDocument/semanticTokens/full"@.len());
        reveal_strlit("textDocument/semanticTokens/range");
        assert("textDocument/semanticTokens/full/delta"@.len() != "textDocument/semanticTokens/range"@.len());
    }
    assert(capability_of("textDocument/inlayHint"@) == Some("inlayHintProvider"@)) by {
        reveal_strlit("textDocument/inlayHint");
        reveal_strlit("initialize");
        assert("textDocument/inlayHint"@.len() != "initialize"@.len());
        reveal_strlit("initialized");
        assert("textDocument/inlayHint"@.len() != "initialized"@.len());
        reveal_strlit("shutdown");
        assert("textDocument/inlayHint"@.len() != "shutdown"@.len());
        reveal_strlit("exit");
        assert("textDocument/inlayHint"@.len() != "exit"@.len());
        reveal_strlit("workspace/didChangeConfiguration");
        assert("textDocument/inlayHint"@.len() != "workspace/didChangeConfiguration"@.len());
        reveal_strlit("workspace/didChangeWatchedFiles");
        assert("textDocument/inlayHint"@.len() != "workspace/didChangeWatchedFiles"@.len());
        reveal_strlit("workspace/symbol");
        assert("textDocument/inlayHint"@.len() != "workspace/symbol"@.len());
        reveal_strlit("workspace/executeCommand");
        assert("textDocument/inlayHint"@.len() != "workspace/executeCommand"@.len());
        reveal_strlit("workspace/workspaceFolders");
        assert("textDocument/inlayHint"@.len() != "workspace/workspaceFolders"@.len());
        reveal_strlit("workspace/configuration");
        assert("textDocument/inlayHint"@.len() != "workspace/configuration"@.len());
        reveal_strlit("textDocument/didOpen");
        assert("textDocument/inlayHint"@.len() != "textDocument/didOpen"@.len());
        reveal_strlit("textDocument/didChange");
        assert("textDocument/inlayHint"@[13] != "textDocument/didChange"@[13]);
        reveal_strlit("textDocument/didClose");
        assert("textDocument/inlayHint"@.len() != "textDocument/didClose"@.len());
        reveal_strlit("textDocument/didSave");
        assert("textDocument/inlayHint"@.len() != "textDocument/didSave"@.len());
        reveal_strlit("textDocument/definition");
        assert("textDocument/inlayHint"@.len() != "textDocument/definition"@.len());
        reveal_strlit("textDocument/typeDefinition");
        assert("textDocument/inlayHint"@.len() != "textDocument/typeDefinition"@.len());
        reveal_strlit("textDocument/declaration");
        assert("textDocument/inlayHint"@.len() != "textDocument/declaration"@.len());
        reveal_strlit("textDocument/implementation");
        assert("textDocument/inlayHint"@.len() != "textDocument/implementation"@.len());
        reveal_strlit("textDocument/references");
        assert("textDocument/inlayHint"@.len() != "textDocument/references"@.len());
        reveal_strlit("textDocument/hover");
        assert("textDocument/inlayHint"@.len() != "textDocument/hover"@.len());
        reveal_strlit("textDocument/signatureHelp");
        assert("textDocument/inlayHint"@.len() != "textDocument/signatureHelp"@.len());
        reveal_strlit("textDocument/completion");
        assert("textDocument/inlayHint"@.len() != "textDocument/completion"@.len());
        reveal_strlit("completionItem/resolve");
        assert("textDocument/inlayHint"@[0] != "completionItem/resolve"@[0]);
        reveal_strlit("textDocument/documentSymbol");
        assert("textDocument/inlayHint"@.len() != "textDocument/documentSymbol"@.len());
        reveal_strlit("textDocument/codeAction");
        assert("textDocument/inlayHint"@.len() != "textDocument/codeAction"@.len());
        reveal_strlit("codeAction/resolve");
        assert("textDocument/inlayHint"@.len() != "codeAction/resolve"@.len());
        reveal_strlit("textDocument/codeLens");
        assert("textDocument/inlayHint"@.len() != "textDocument/codeLens"@.len());
        reveal_strlit("codeLens/resolve");
        assert("textDocument/inlayHint"@.len() != "codeLens/resolve"@.len());
        reveal_strlit("textDocument/documentLink");
        assert("textDocument/inlayHint"@.len() != "textDocument/documentLink"@.len());
        reveal_strlit("documentLink/resolve");
        assert("textDocument/inlayHint"@.len() != "documentLink/resolve"@.len());
        reveal_strlit("textDocument/documentHighlight");
        assert("textDocument/inlayHint"@.len() != "textDocument/documentHighlight"@.len());
        reveal_strlit("textDocument/formatting");
        assert("textDocument/inlayHint"@.len() != "textDocument/formatting"@.len());
        reveal_strlit("textDocument/rangeFormatting");
        assert("textDocument/inlayHint"@.len() != "textDocument/rangeFormatting"@.len());
        reveal_strlit("textDocument/onTypeFormatting");
        assert("textDocument/inlayHint"@.len() != "textDocument/onTypeFormatting"@.len());
        reveal_strlit("textDocument/rename");
        assert("textDocument/inlayHint"@.len() != "textDocument/rename"@.len());
        reveal_strlit("textDocument/foldingRange");
        assert("textDocument/inlayHint"@.len() != "textDocument/foldingRange"@.len());
        reveal_strlit("textDocument/selectionRange");
        assert("textDocument/inlayHint"@.len() != "textDocument/selectionRange"@.len());
        reveal_strlit("textDocument/semanticTokens/full");
        assert("textDocument/inlayHint"@.len() != "textDocument/semanticTokens/full"@.len());
        reveal_strlit("textDocument/semanticTokens/range");
        assert("textDocument/inlayHint"@.len() != "textDocument/semanticTokens/range"@.len());
        reveal_strlit("textDocument/semanticTokens/full/delta");
        assert("textDocument/inlayHint"@.len() != "textDocument/semanticTokens/full/delta"@.len());
    }
    assert(capability_of("inlayHint/resolve"@) == Some("inlayHintResolveProvider"@)) by {
        reveal_strlit("inlayHint/resolve");
        reveal_strlit("initialize");
        assert("inlayHint/resolve"@.len() != "initialize"@.len());
        reveal_strlit("initialized");
        assert("inlayHint/resolve"@.len() != "initialized"@.len());
        reveal_strlit("shutdown");
        assert("inlayHint/resolve"@.len() != "shutdown"@.len());
        reveal_strlit("exit");
        assert("inlayHint/resolve"@.len() != "exit"@.len());
        reveal_strlit("workspace/didChangeConfiguration");
        assert("inlayHint/resolve"@.len() != "workspace/didChangeConfiguration"@.len());
        reveal_strlit("workspace/didChangeWatchedFiles");
        assert("inlayHint/resolve"@.len() != "workspace/didChangeWatchedFiles"@.len());
        reveal_strlit("workspace/symbol");
        assert("inlayHint/resolve"@.len() != "workspace/symbol"@.len());
        reveal_strlit("workspace/executeCommand");
        assert("inlayHint/resolve"@.len() != "workspace/executeCommand"@.len());
        reveal_strlit("workspace/workspaceFolders");
        assert("inlayHint/resolve"@.len() != "workspace/workspaceFolders"@.len());
        reveal_strlit("workspace/configuration");
        assert("inlayHint/resolve"@.len() != "workspace/configuration"@.len());
        reveal_strlit("textDocument/didOpen");
        assert("inlayHint/resolve"@.len() != "textDocument/didOpen"@.len());
        reveal_strlit("textDocument/didChange");
        assert("inlayHint/resolve"@.len() != "textDocument/didChange"@.len());
        reveal_strlit("textDocument/didClose");
        assert("inlayHint/resolve"@.len() != "textDocument/didClose"@.len());
        reveal_strlit("textDocument/didSave");
        assert("inlayHint/resolve"@.len() != "textDocument/didSave"@.len());
        reveal_strlit("textDocument/definition");
        assert("inlayHint/resolve"@.len() != "textDocument/definition"@.len());
        reveal_strlit("textDocument/typeDefinition");
        assert("inlayHint/resolve"@.len() != "textDocument/typeDefinition"@.len());
        reveal_strlit("textDocument/declaration");
        assert("inlayHint/resolve"@.len() != "textDocument/declaration"@.len());
        reveal_strlit("textDocument/implementation");
        assert("inlayHint/resolve"@.len() != "textDocument/implementation"@.len());
        reveal_strlit("textDocument/references");
        assert("inlayHint/resolve"@.len() != "textDocument/references"@.len());
        reveal_strlit("textDocument/hover");
        assert("inlayHint/resolve"@.len() != "textDocument/hover"@.len());
        reveal_strlit("textDocument/signatureHelp");
        assert("inlayHint/resolve"@.len() != "textDocument/signatureHelp"@.len());
        reveal_strlit("textDocument/completion");
        assert("inlayHint/resolve"@.len() != "textDocument/completion"@.len());
        reveal_strlit("completionItem/resolve");
        assert("inlayHint/resolve"@.len() != "completionItem/resolve"@.len());
        reveal_strlit("textDocument/documentSymbol");
        assert("inlayHint/resolve"@.len() != "textDocument/documentSymbol"@.len());
        reveal_strlit("textDocument/codeAction");
        assert("inlayHint/resolve"@.len() != "textDocument/codeAction"@.len());
        reveal_strlit("codeAction/resolve");
        assert("inlayHint/resolve"@.len() != "codeAction/resolve"@.len());
        reveal_strlit("textDocument/codeLens");
        assert("inlayHint/resolve"@.len() != "textDocument/codeLens"@.len());
        reveal_strlit("codeLens/resolve");
        assert("inlayHint/resolve"@.len() != "codeLens/resolve"@.len());
        reveal_strlit("textDocument/documentLink");
        assert("inlayHint/resolve"@.len() != "textDocument/documentLink"@.len());
        reveal_strlit("documentLink/resolve");
        assert("inlayHint/resolve"@.len() != "documentLink/resolve"@.len());
        reveal_strlit("textDocument/documentHighlight");
        assert("inlayHint/resolve"@.len() != "textDocument/documentHighlight"@.len());
        reveal_strlit("textDocument/formatting");
        assert("inlayHint/resolve"@.len() != "textDocument/formatting"@.len());
        reveal_strlit("textDocument/rangeFormatting");
        assert("inlayHint/resolve"@.len() != "textDocument/rangeFormatting"@.len());
        reveal_strlit("textDocument/onTypeFormatting");
        assert("inlayHint/resolve"@.len() != "textDocument/onTypeFormatting"@.len());
        reveal_strlit("textDocument/rename");
        assert("inlayHint/resolve"@.len() != "textDocument/rename"@.len());
        reveal_strlit("textDocument/foldingRange");
        assert("inlayHint/resolve"@.len() != "textDocument/foldingRange"@.len());
        reveal_strlit("textDocument/selectionRange");
        assert("inlayHint/resolve"@.len() != "textDocument/selectionRange"@.len());
        reveal_strlit("textDocument/semanticTokens/full");
        assert("inlayHint/resolve"@.len() != "textDocument/semanticTokens/full"@.len());
        reveal_strlit("textDocument/semanticTokens/range");
        assert("inlayHint/resolve"@.len() != "textDocument/semanticTokens/range"@.len());
        reveal_strlit("textDocument/semanticTokens/full/delta");
        assert("inlayHint/resolve"@.len() != "textDocument/semanticTokens/full/delta"@.len());
        reveal_strlit("textDocument/inlayHint");
        assert("inlayHint/resolve"@.len() != "textDocument/inlayHint"@.len());
    }
    assert(capability_of("window/showMessageRequest"@) == Some("showMessageRequestProvider"@)) by {
        reveal_strlit("window/showMessageRequest");
        reveal_strlit("initialize");
        assert("window/showMessageRequest"@.len() != "initialize"@.len());
        reveal_strlit("initialized");
        assert("window/showMessageRequest"@.len() != "initialized"@.len());
        reveal_strlit("shutdown");
        assert("window/showMessageRequest"@.len() != "shutdown"@.len());
        reveal_strlit("exit");
        assert("window/showMessageRequest"@.len() != "exit"@.len());
        reveal_strlit("workspace/didChangeConfiguration");
        assert("window/showMessageRequest"@.len() != "workspace/didChangeConfiguration"@.len());
        reveal_strlit("workspace/didChangeWatchedFiles");
        assert("window/showMessageRequest"@.len() != "workspace/didChangeWatchedFiles"@.len());
        reveal_strlit("workspace/symbol");
        assert("window/showMessageRequest"@.len() != "workspace/symbol"@.len());
        reveal_strlit("workspace/executeCommand");
        assert("window/showMessageRequest"@.len() != "workspace/executeCommand"@.len());
        reveal_strlit("workspace/workspaceFolders");
        assert("window/showMessageRequest"@.len() != "workspace/workspaceFolders"@.len());
        reveal_strlit("workspace/configuration");
        assert("window/showMessageRequest"@.len() != "workspace/configuration"@.len());
        reveal_strlit("textDocument/didOpen");
        assert("window/showMessageRequest"@.len() != "textDocument/didOpen"@.len());
        reveal_strlit("textDocument/didChange");
        assert("window/showMessageRequest"@.len() != "textDocument/didChange"@.len());
        reveal_strlit("textDocument/didClose");
        assert("window/showMessageRequest"@.len() != "textDocument/didClose"@.len());
        reveal_strlit("textDocument/didSave");
        assert("window/showMessageRequest"@.len() != "textDocument/didSave"@.len());
        reveal_strlit("textDocument/definition");
        assert("window/showMessageRequest"@.len() != "textDocument/definition"@.len());
        reveal_strlit("textDocument/typeDefinition");
        assert("window/showMessageRequest"@.len() != "textDocument/typeDefinition"@.len());
        reveal_strlit("textDocument/declaration");
        assert("window/showMessageRequest"@.len() != "textDocument/declaration"@.len());
        reveal_strlit("textDocument/implementation");
        assert("window/showMessageRequest"@.len() != "textDocument/implementation"@.len());
        reveal_strlit("textDocument/references");
        assert("window/showMessageRequest"@.len() != "textDocument/references"@.len());
        reveal_strlit("textDocument/hover");
        assert("window/showMessageRequest"@.len() != "textDocument/hover"@.len());
        reveal_strlit("textDocument/signatureHelp");
        assert("window/showMessageRequest"@.len() != "textDocument/signatureHelp"@.len());
        reveal_strlit("textDocument/completion");
        assert("window/showMessageRequest"@.len() != "textDocument/completion"@.len());
        reveal_strlit("completionItem/resolve");
        assert("window/showMessageRequest"@.len() != "completionItem/resolve"@.len());
        reveal_strlit("textDocument/documentSymbol");
        assert("window/showMessageRequest"@.len() != "textDocument/documentSymbol"@.len());
        reveal_strlit("textDocument/codeAction");
        assert("window/showMessageRequest"@.len() != "textDocument/codeAction"@.len());
        reveal_strlit("codeAction/resolve");
        assert("window/showMessageRequest"@.len() != "codeAction/resolve"@.len());
        reveal_strlit("textDocument/codeLens");
        assert("window/showMessageRequest"@.len() != "textDocument/codeLens"@.len());
        reveal_strlit("codeLens/resolve");
        assert("window/showMessageRequest"@.len() != "codeLens/resolve"@.len());
        reveal_strlit("textDocument/documentLink");
        assert("window/showMessageRequest"@[0] != "textDocument/documentLink"@[0]);
        reveal_strlit("documentLink/resolve");
        assert("window/showMessageRequest"@.len() != "documentLink/resolve"@.len());
        reveal_strlit("textDocument/documentHighlight");
        assert("window/showMessageRequest"@.len() != "textDocument/documentHighlight"@.len());
        reveal_strlit("textDocument/formatting");
        assert("window/showMessageRequest"@.len() != "textDocument/formatting"@.len());
        reveal_strlit("textDocument/rangeFormatting");
        assert("window/showMessageRequest"@.len() != "textDocument/rangeFormatting"@.len());
        reveal_strlit("textDocument/onTypeFormatting");
        assert("window/showMessageRequest"@.len() != "textDocument/onTypeFormatting"@.len());
        reveal_strlit("textDocument/rename");
        assert("window/showMessageRequest"@.len() != "textDocument/rename"@.len());
        reveal_strlit("textDocument/foldingRange");
        assert("window/showMessageRequest"@[0] != "textDocument/foldingRange"@[0]);
        reveal_strlit("textDocument/selectionRange");
        assert("window/showMessageRequest"@.len() != "textDocument/selectionRange"@.len());
        reveal_strlit("textDocument/semanticTokens/full");
        assert("window/showMessageRequest"@.len() != "textDocument/semanticTokens/full"@.len());
        reveal_strlit("textDocument/semanticTokens/range");
        assert("window/showMessageRequest"@.len() != "textDocument/semanticTokens/range"@.len());
        reveal_strlit("textDocument/semanticTokens/full/delta");
        assert("window/showMessageRequest"@.len() != "textDocument/semanticTokens/full/delta"@.len());
        reveal_strlit("textDocument/inlayHint");
        assert("window/showMessageRequest"@.len() != "textDocument/inlayHint"@.len());
        reveal_strlit("inlayHint/resolve");
        assert("window/showMessageRequest"@.len() != "inlayHint/resolve"@.len());
    }
    assert(capability_of("window/logMessage"@) == Some("logMessageProvider"@)) by {
        reveal_strlit("window/logMessage");
        reveal_strlit("initialize");
        assert("window/logMessage"@.len() != "initialize"@.len());
        reveal_strlit("initialized");
        assert("window/logMessage"@.len() != "initialized"@.len());
        reveal_strlit("shutdown");
        assert("window/logMessage"@.len() != "shutdown"@.len());
        reveal_strlit("exit");
        assert("window/logMessage"@.len() != "exit"@.len());
        reveal_strlit("workspace/didChangeConfiguration");
        assert("window/logMessage"@.len() != "workspace/didChangeConfiguration"@.len());
        reveal_strlit("workspace/didChangeWatchedFiles");
        assert("window/logMessage"@.len() != "workspace/didChangeWatchedFiles"@.len());
        reveal_strlit("workspace/symbol");
        assert("window/logMessage"@.len() != "workspace/symbol"@.len());
        reveal_strlit("workspace/executeCommand");
        assert("window/logMessage"@.len() != "workspace/executeCommand"@.len());
        reveal_strlit("workspace/workspaceFolders");
        assert("window/logMessage"@.len() != "workspace/workspaceFolders"@.len());
        reveal_strlit("workspace/configuration");
        assert("window/logMessage"@.len() != "workspace/configuration"@.len());
        reveal_strlit("textDocument/didOpen");
        assert("window/logMessage"@.len() != "textDocument/didOpen"@.len());
        reveal_strlit("textDocument/didChange");
        assert("window/logMessage"@.len() != "textDocument/didChange"@.len());
        reveal_strlit("textDocument/didClose");
        assert("window/logMessage"@.len() != "textDocument/didClose"@.len());
        reveal_strlit("textDocument/didSave");
        assert("window/logMessage"@.len() != "textDocument/didSave"@.len());
        reveal_strlit("textDocument/definition");
        assert("window/logMessage"@.len() != "textDocument/definition"@.len());
        reveal_strlit("textDocument/typeDefinition");
        assert("window/logMessage"@.len() != "textDocument/typeDefinition"@.len());
        reveal_strlit("textDocument/declaration");
        assert("window/logMessage"@.len() != "textDocument/declaration"@.len());
        reveal_strlit("textDocument/implementation");
        assert("window/logMessage"@.len() != "textDocument/implementation"@.len());
        reveal_strlit("textDocument/references");
        assert("window/logMessage"@.len() != "textDocument/references"@.len());
        reveal_strlit("textDocument/hover");
        assert("window/logMessage"@.len() != "textDocument/hover"@.len());
        reveal_strlit("textDocument/signatureHelp");
        assert("window/logMessage"@.len() != "textDocument/signatureHelp"@.len());
        reveal_strlit("textDocument/completion");
        assert("window/logMessage"@.len() != "textDocument/completion"@.len());
        reveal_strlit("completionItem/resolve");
        assert("window/logMessage"@.len() != "completionItem/resolve"@.len());
        reveal_strlit("textDocument/documentSymbol");
        assert("window/logMessage"@.len() != "textDocument/documentSymbol"@.len());
        reveal_strlit("textDocument/codeAction");
        assert("window/logMessage"@.len() != "textDocument/codeAction"@.len());
        reveal_strlit("codeAction/resolve");
        assert("window/logMessage"@.len() != "codeAction/resolve"@.len());
        reveal_strlit("textDocument/codeLens");
        assert("window/logMessage"@.len() != "textDocument/codeLens"@.len());
        reveal_strlit("codeLens/resolve");
        assert("window/logMessage"@.len() != "codeLens/resolve"@.len());
        reveal_strlit("textDocument/documentLink");
        assert("window/logMessage"@.len() != "textDocument/documentLink"@.len());
        reveal_strlit("documentLink/resolve");
        assert("window/logMessage"@.len() != "documentLink/resolve"@.len());
        reveal_strlit("textDocument/documentHighlight");
        assert("window/logMessage"@.len() != "textDocument/documentHighlight"@.len());
        reveal_strlit("textDocument/formatting");
        assert("window/logMessage"@.len() != "textDocument/formatting"@.len());
        reveal_strlit("textDocument/rangeFormatting");
        assert("window/logMessage"@.len() != "textDocument/rangeFormatting"@.len());
        reveal_strlit("textDocument/onTypeFormatting");
        assert("window/logMessage"@.len() != "textDocument/onTypeFormatting"@.len());
        reveal_strlit("textDocument/rename");
        assert("window/logMessage"@.len() != "textDocument/rename"@.len());
        reveal_strlit("textDocument/foldingRange");
        assert("window/logMessage"@.len() != "textDocument/foldingRange"@.len());
        reveal_strlit("textDocument/selectionRange");
        assert("window/logMessage"@.len() != "textDocument/selectionRange"@.len());
        reveal_strlit("textDocument/semanticTokens/full");
        assert("window/logMessage"@.len() != "textDocument/semanticTokens/full"@.len());
        reveal_strlit("textDocument/semanticTokens/range");
        assert("window/logMessage"@.len() != "textDocument/semanticTokens/range"@.len());
        reveal_strlit("textDocument/semanticTokens/full/delta");
        assert("window/logMessage"@.len() != "textDocument/semanticTokens/full/delta"@.len());
        reveal_strlit("textDocument/inlayHint");
        assert("window/logMessage"@.len() != "textDocument/inlayHint"@.len());
        reveal_strlit("inlayHint/resolve");
        assert("window/logMessage"@[0] != "inlayHint/resolve"@[0]);
        reveal_strlit("window/showMessageRequest");
        assert("window/logMessage"@.len() != "window/showMessageRequest"@.len());
    }
    assert(capability_of("window/showDocument"@) == Some("showDocumentProvider"@)) by {
        reveal_strlit("window/showDocument");
        reveal_strlit("initialize");
        assert("window/showDocument"@.len() != "initialize"@.len());
        reveal_strlit("initialized");
        assert("window/showDocument"@.len() != "initialized"@.len());
        reveal_strlit("shutdown");
        assert("window/showDocument"@.len() != "shutdown"@.len());
        reveal_strlit("exit");
        assert("window/showDocument"@.len() != "exit"@.len());
        reveal_strlit("workspace/didChangeConfiguration");
        assert("window/showDocument"@.len() != "workspace/didChangeConfiguration"@.len());
        reveal_strlit("workspace/didChangeWatchedFiles");
        assert("window/showDocument"@.len() != "workspace/didChangeWatchedFiles"@.len());
        reveal_strlit("workspace/symbol");
        assert("window/showDocument"@.len() != "workspace/symbol"@.len());
        reveal_strlit("workspace/executeCommand");
        assert("window/showDocument"@.len() != "workspace/executeCommand"@.len());
        reveal_strlit("workspace/workspaceFolders");
        assert("window/showDocument"@.len() != "workspace/workspaceFolders"@.len());
        reveal_strlit("workspace/configuration");
        assert("window/showDocument"@.len() != "workspace/configuration"@.len());
        reveal_strlit("textDocument/didOpen");
        assert("window/showDocument"@.len() != "textDocument/didOpen"@.len());
        reveal_strlit("textDocument/didChange");
        assert("window/showDocument"@.len() != "textDocument/didChange"@.len());
        reveal_strlit("textDocument/didClose");
        assert("window/showDocument"@.len() != "textDocument/didClose"@.len());
        reveal_strlit("textDocument/didSave");
        assert("window/showDocument"@.len() != "textDocument/didSave"@.len());
        reveal_strlit("textDocument/definition");
        assert("window/showDocument"@.len() != "textDocument/definition"@.len());
        reveal_strlit("textDocument/typeDefinition");
        assert("window/showDocument"@.len() != "textDocument/typeDefinition"@.len());
        reveal_strlit("textDocument/declaration");
        assert("window/showDocument"@.len() != "textDocument/declaration"@.len());
        reveal_strlit("textDocument/implementation");
        assert("window/showDocument"@.len() != "textDocument/implementation"@.len());
        reveal_strlit("textDocument/references");
        assert("window/showDocument"@.len() != "textDocument/references"@.len());
        reveal_strlit("textDocument/hover");
        assert("window/showDocument"@.len() != "textDocument/hover"@.len());
        reveal_strlit("textDocument/signatureHelp");
        assert("window/showDocument"@.len() != "textDocument/signatureHelp"@.len());
        reveal_strlit("textDocument/completion");
        assert("window/showDocument"@.len() != "textDocument/completion"@.len());
        reveal_strlit("completionItem/resolve");
        assert("window/showDocument"@.len() != "completionItem/resolve"@.len());
        reveal_strlit("textDocument/documentSymbol");
        assert("window/showDocument"@.len() != "textDocument/documentSymbol"@.len());
        reveal_strlit("textDocument/codeAction");
        assert("window/showDocument"@.len() != "textDocument/codeAction"@.len());
        reveal_strlit("codeAction/resolve");
        assert("window/showDocument"@.len() != "codeAction/resolve"@.len());
        reveal_strlit("textDocument/codeLens");
        assert("window/showDocument"@.len() != "textDocument/codeLens"@.len());
        reveal_strlit("codeLens/resolve");
        assert("window/showDocument"@.len() != "codeLens/resolve"@.len());
        reveal_strlit("textDocument/documentLink");
        assert("window/showDocument"@.len() != "textDocument/documentLink"@.len());
        reveal_strlit("documentLink/resolve");
        assert("window/showDocument"@.len() != "documentLink/resolve"@.len());
        reveal_strlit("textDocument/documentHighlight");
        assert("window/showDocument"@.len() != "textDocument/documentHighlight"@.len());
        reveal_strlit("textDocument/formatting");
        assert("window/showDocument"@.len() != "textDocument/formatting"@.len());
        reveal_strlit("textDocument/rangeFormatting");
        assert("window/showDocument"@.len() != "textDocument/rangeFormatting"@.len());
        reveal_strlit("textDocument/onTypeFormatting");
        assert("window/showDocument"@.len() != "textDocument/onTypeFormatting"@.len());
        reveal_strlit("textDocument/rename");
        assert("window/showDocument"@[0] != "textDocument/rename"@[0]);
        reveal_strlit("textDocument/foldingRange");
        assert("window/showDocument"@.len() != "textDocument/foldingRange"@.len());
        reveal_strlit("textDocument/selectionRange");
        assert("window/showDocument"@.len() != "textDocument/selectionRange"@.len());
        reveal_strlit("textDocument/semanticTokens/full");
        assert("window/showDocument"@.len() != "textDocument/semanticTokens/full"@.len());
        reveal_strlit("textDocument/semanticTokens/range");
        assert("window/showDocument"@.len() != "textDocument/semanticTokens/range"@.len());
        reveal_strlit("textDocument/semanticTokens/full/delta");
        assert("window/showDocument"@.len() != "textDocument/semanticTokens/full/delta"@.len());
        reveal_strlit("textDocument/inlayHint");
        assert("window/showDocument"@.len() != "textDocument/inlayHint"@.len());
        reveal_strlit("inlayHint/resolve");
        assert("window/showDocument"@.len() != "inlayHint/resolve"@.len());
        reveal_strlit("window/showMessageRequest");
        assert("window/showDocument"@.len() != "window/showMessageRequest"@.len());
        reveal_strlit("window/logMessage");
        assert("window/showDocument"@.len() != "window/logMessage"@.len());
    }
}

} // verus!
