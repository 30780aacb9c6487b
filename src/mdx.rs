use vstd::prelude::*;

verus! {

/// What the MDX compiler gives for `source` with the given `jsx` option: the
/// compiled program, or the text of the message that explains why it rejects
/// `source`. The compiler is a pure function of its input and options.
pub uninterp spec fn mdx_compiled(source: Seq<char>, jsx: bool) -> Result<Seq<char>, Seq<char>>;

/// Relies on mdxjs::compile, run with default options but for `jsx`, and on
/// the `Display` impl of its error, markdown::message::Message, which writes
/// the place where the message has one, then `<reason> (<source>:<rule>)`,
/// so the text is never empty.
#[verifier::external_body]
fn mdx_compile(content: &str, jsx: bool) -> (r: Result<String, String>)
    ensures
        outcome_view(r) == mdx_compiled(content@, jsx),
        r matches Err(msg) ==> msg@.len() > 0,
{
    let options = mdxjs::Options { jsx, ..Default::default() };
    mdxjs::compile(content, &options).map_err(|e| e.to_string())
}

/// A compile outcome with its strings seen as character sequences.
pub open spec fn outcome_view(r: Result<String, String>) -> Result<Seq<char>, Seq<char>> {
    match r {
        Ok(code) => Ok(code@),
        Err(msg) => Err(msg@),
    }
}

/// Compiles an MDX document to JavaScript that calls a JSX runtime (the
/// output holds no JSX syntax). A rejected document gives the compiler's
/// message as text, unchanged.
pub fn compile_mdx(content: String) -> (r: Result<String, String>)
    ensures
        outcome_view(r) == mdx_compiled(content@, false),
        r matches Err(msg) ==> msg@.len() > 0,
{
    mdx_compile(content.as_str(), false)
}

/// Compiling is deterministic: two outcomes that `compile_mdx` may return
/// for equal content are equal, the error text included.
pub proof fn lemma_compile_mdx_deterministic(
    a: Seq<char>,
    b: Seq<char>,
    ra: Result<String, String>,
    rb: Result<String, String>,
)
    requires
        a == b,
        outcome_view(ra) == mdx_compiled(a, false),
        outcome_view(rb) == mdx_compiled(b, false),
    ensures
        outcome_view(ra) == outcome_view(rb),
{
}

} // verus!
