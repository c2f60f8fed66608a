//! The user-visible texts: the usage text, the unknown-subcommand
//! diagnostic and the saved-file confirmation. Each is an exact
//! concatenation of fixed literals and the caller's values.

use vstd::prelude::*;

verus! {

/// The part of the usage text that precedes the program path.
pub open spec fn usage_prefix() -> Seq<char> {
    "If no subcommand is provided, it will take a screenshot of the current screen and save it to the system clipboard.\nUsage:\n    "@
}

/// The part of the usage text that follows the program path.
pub open spec fn usage_suffix() -> Seq<char> {
    " [SUBCOMMAND]\n\nSubcommands:\n    help - Show this message.\n    save - Try to save a screenshot from the clipboard as a PNG file."@
}

/// The full usage text, with the running program's own path interpolated.
pub open spec fn usage_spec(program: Seq<char>) -> Seq<char> {
    usage_prefix() + program + usage_suffix()
}

/// Builds the usage text around the path of the running program.
pub fn usage(program: &str) -> (r: String)
    ensures
        r@ == usage_spec(program@),
{
    String::from_str(
        "If no subcommand is provided, it will take a screenshot of the current screen and save it to the system clipboard.\nUsage:\n    ",
    ).concat(program).concat(
        " [SUBCOMMAND]\n\nSubcommands:\n    help - Show this message.\n    save - Try to save a screenshot from the clipboard as a PNG file.",
    )
}

/// The diagnostic for an unrecognized subcommand: the offending token in
/// quotes, then the usage text on a line of its own.
pub open spec fn unknown_message_spec(token: Seq<char>, usage_text: Seq<char>) -> Seq<char> {
    "Unknown subcommand \""@ + token + "\"\n"@ + usage_text
}

/// Builds the unknown-subcommand diagnostic around the offending token
/// and the usage text.
pub fn unknown_subcommand_message(token: &str, usage_text: &str) -> (r: String)
    ensures
        r@ == unknown_message_spec(token@, usage_text@),
{
    String::from_str("Unknown subcommand \"").concat(token).concat("\"\n").concat(usage_text)
}

/// The confirmation printed after the clipboard image was saved.
pub fn saved_message(file_path: &str) -> (r: String)
    ensures
        r@ == "Image from clipboard is saved as \""@ + file_path@ + "\""@,
{
    String::from_str("Image from clipboard is saved as \"").concat(file_path).concat("\"")
}

/// `needle` occurs somewhere inside `hay`.
pub open spec fn contains_seq(hay: Seq<char>, needle: Seq<char>) -> bool {
    exists|i: int|
        0 <= i && i + needle.len() <= hay.len() && #[trigger] hay.subrange(i, i + needle.len())
            == needle
}

/// The unknown-subcommand diagnostic embeds the offending token
/// literally, and embeds the full usage text, whatever the token and
/// whatever the usage text.
pub proof fn lemma_unknown_message_embeds_token_and_usage(
    token: Seq<char>,
    usage_text: Seq<char>,
)
    ensures
        contains_seq(unknown_message_spec(token, usage_text), token),
        contains_seq(unknown_message_spec(token, usage_text), usage_text),
{
    reveal_strlit("Unknown subcommand \"");
    reveal_strlit("\"\n");
    let msg = unknown_message_spec(token, usage_text);
    let pre = "Unknown subcommand \""@.len() as int;
    let mid = "\"\n"@.len() as int;
    assert(msg.subrange(pre, pre + token.len()) =~= token);
    assert(msg.subrange(pre + token.len() + mid, pre + token.len() + mid + usage_text.len())
        =~= usage_text);
}

} // verus!
