//! The two module bodies that a run hands to the engine.
//!
//! The user module is the caller's script followed by a block that parses the
//! interchange text of the input, calls the script's `main` on the value, and
//! exports what the call resolves to. The driver module imports that export
//! and publishes its interchange text in a global slot.

use crate::literal::{escape, escaped, lemma_escaped_reads_back, read_literal};
use vstd::prelude::*;

verus! {

/// The identifier under which the user module is declared.
pub const USER_MODULE: &'static str = "user_script";

/// The identifier under which the driver module is evaluated.
pub const DRIVER_MODULE: &'static str = "process";

/// The name under which the user module exports the transformed value.
pub const RESULT_EXPORT: &'static str = "_processed_config";

/// The global slot in which the driver module publishes the result.
pub const RESULT_SLOT: &'static str = "final_result";

/// What follows the script in the user module, up to the quote that opens
/// the literal.
pub open spec fn user_prelude() -> Seq<char> {
    ";\nlet config = JSON.parse("@
}

/// What follows the quote that closes the literal in the user module.
pub open spec fn user_epilogue() -> Seq<char> {
    ");\nexport let "@ + RESULT_EXPORT@ + " = await main(config);\n"@
}

/// The body of the user module for a script and the interchange text of the
/// input.
pub open spec fn user_module_text(script: Seq<char>, serialized: Seq<char>) -> Seq<char> {
    script + user_prelude() + seq!['\''] + escaped(serialized) + seq!['\''] + user_epilogue()
}

/// The index in the user module of the first character of the literal's
/// body, just behind the quote that opens it.
pub open spec fn literal_start(script: Seq<char>) -> int {
    script.len() as int + user_prelude().len() + 1
}

/// The body of the driver module.
pub open spec fn driver_module_text() -> Seq<char> {
    "import { "@ + RESULT_EXPORT@ + " } from \""@ + USER_MODULE@ + "\";\nglobalThis."@
        + RESULT_SLOT@ + " = JSON.stringify("@ + RESULT_EXPORT@ + ");\n"@
}

/// Builds the body of the user module.
///
/// Neither text is checked: a script that is not valid shows when the module
/// is declared.
pub fn user_module(script: &str, serialized: &str) -> (body: String)
    ensures
        body@ == user_module_text(script@, serialized@),
{
    let mut body = String::from_str(script);
    body.append(";\nlet config = JSON.parse(");
    body.push('\'');
    let literal = escape(serialized);
    body.append(literal.as_str());
    body.push('\'');
    body.append(");\nexport let ");
    body.append(RESULT_EXPORT);
    body.append(" = await main(config);\n");
    body
}

/// Builds the body of the driver module.
pub fn driver_module() -> (body: String)
    ensures
        body@ == driver_module_text(),
{
    let mut body = String::from_str("import { ");
    body.append(RESULT_EXPORT);
    body.append(" } from \"");
    body.append(USER_MODULE);
    body.append("\";\nglobalThis.");
    body.append(RESULT_SLOT);
    body.append(" = JSON.stringify(");
    body.append(RESULT_EXPORT);
    body.append(");\n");
    body
}

/// Whatever the interchange text holds, the user module is the script, the
/// fixed prelude, one string literal and the fixed epilogue: an engine that
/// reads the literal gets exactly the interchange text and stops at the quote
/// that the synthesizer put behind it, so that no character of the text is
/// read as script.
///
/// This speaks of an engine that begins to read a literal at the opening
/// quote, as it does behind any script that is complete in itself.
pub proof fn lemma_user_module_literal(script: Seq<char>, serialized: Seq<char>)
    ensures
        ({
            let body = user_module_text(script, serialized);
            let start = literal_start(script);
            let end = start + escaped(serialized).len();
            &&& body.subrange(0, start - 1) == script + user_prelude()
            &&& body[start - 1] == '\''
            &&& read_literal(body, start) == Some((serialized, end))
            &&& body.subrange(end + 1, body.len() as int) == user_epilogue()
        }),
{
    lemma_escaped_reads_back(script + user_prelude(), serialized, user_epilogue());
}

} // verus!
