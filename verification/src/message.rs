//! The error message raised for a blocked statement.
use vstd::prelude::*;
use vstd::string::StrSliceExecFns;
use crate::statement::{StatementKind, spec_statement_name, statement_name};
use crate::text::{decode_text, opt_bytes_view, spec_utf8_text};

verus! {

/// How many characters of the query the message quotes.
pub const QUERY_PREVIEW_CHARS: usize = 100;

/// The query text quoted in the message: the query itself, or `<unknown>`
/// when there is none or its bytes are not valid UTF-8.
pub open spec fn spec_query_text(query: Option<Seq<u8>>) -> Seq<char> {
    match query {
        Some(bytes) => match spec_utf8_text(bytes) {
            Some(text) => text,
            None => "<unknown>"@,
        },
        None => "<unknown>"@,
    }
}

/// The message marks the quoted query with "...": the query is valid UTF-8
/// and longer than `QUERY_PREVIEW_CHARS` bytes.  The test counts bytes while
/// the preview counts characters, so a query of more than that many bytes
/// but at most that many characters is quoted whole and still marked.
pub open spec fn spec_query_marked(query: Option<Seq<u8>>) -> bool {
    match query {
        Some(bytes) => spec_utf8_text(bytes) is Some && bytes.len() > QUERY_PREVIEW_CHARS,
        None => false,
    }
}

/// At most the first `QUERY_PREVIEW_CHARS` characters of `text`.
pub open spec fn spec_preview(text: Seq<char>) -> Seq<char> {
    if text.len() <= QUERY_PREVIEW_CHARS {
        text
    } else {
        text.take(QUERY_PREVIEW_CHARS as int)
    }
}

/// The full message: the statement's name, the quoted query (followed by
/// "..." when it is marked) and a hint on what to do.
pub open spec fn spec_blocked_message(kind: StatementKind, query: Option<Seq<u8>>) -> Seq<char> {
    "pg_noddl: "@ + spec_statement_name(kind) + " is blocked during migration\nQuery: "@
        + spec_preview(spec_query_text(query)) + (if spec_query_marked(query) {
        "..."@
    } else {
        Seq::empty()
    })
        + "\nHint: Schema changes are not replicated by logical replication.\n      Disable pg_noddl with SELECT pg_noddl_disable() or apply\n      this change manually to both source and target."@
}

/// The quoted query is a prefix of the query text of at most
/// `QUERY_PREVIEW_CHARS` characters, and all of it when the text is that
/// short.
pub proof fn lemma_preview_is_short_prefix(text: Seq<char>)
    ensures
        spec_preview(text).len() <= QUERY_PREVIEW_CHARS,
        spec_preview(text) =~= text.take(spec_preview(text).len() as int),
        text.len() <= QUERY_PREVIEW_CHARS ==> spec_preview(text) == text,
{
}

/// Every message begins with the extension's name, so that the error can be
/// told apart from PostgreSQL's own.
pub proof fn lemma_message_names_extension(kind: StatementKind, query: Option<Seq<u8>>)
    ensures
        spec_blocked_message(kind, query).take(8) =~= "pg_noddl"@,
{
    reveal_strlit("pg_noddl: ");
    reveal_strlit("pg_noddl");
    let m = spec_blocked_message(kind, query);
    assert(m.take(8) =~= "pg_noddl: "@.take(8));
}

/// Builds the error message for a blocked statement of kind `kind`; `query`
/// holds the bytes of the statement's text (`None` when it is missing).
pub fn blocked_statement_message(kind: StatementKind, query: Option<&[u8]>) -> (msg: String)
    ensures
        msg@ == spec_blocked_message(kind, opt_bytes_view(query)),
{
    let (text, cut): (&str, bool) = match query {
        Some(bytes) => match decode_text(bytes) {
            Some(q) => (q, bytes.len() > QUERY_PREVIEW_CHARS),
            None => ("<unknown>", false),
        },
        None => ("<unknown>", false),
    };
    let n: usize = text.unicode_len();
    let shown: usize = if n <= QUERY_PREVIEW_CHARS {
        n
    } else {
        QUERY_PREVIEW_CHARS
    };
    let preview: &str = text.substring_char(0, shown);
    proof {
        assert(text@.subrange(0, shown as int) =~= spec_preview(text@));
    }
    let mut msg: String = String::from_str("pg_noddl: ");
    msg.append(statement_name(kind));
    msg.append(" is blocked during migration\nQuery: ");
    msg.append(preview);
    if cut {
        msg.append("...");
    } else {
        assert(msg@ + Seq::<char>::empty() =~= msg@);
    }
    msg.append(
        "\nHint: Schema changes are not replicated by logical replication.\n      Disable pg_noddl with SELECT pg_noddl_disable() or apply\n      this change manually to both source and target.",
    );
    msg
}

} // verus!
