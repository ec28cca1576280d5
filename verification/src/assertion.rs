//! The assertion context: wraps a [`ProcessResult`] plus named diagnostic
//! context, and offers one check per observable dimension of the finished
//! process. A passing check hands the context back for further chaining; a
//! failing check returns a [`CheckFailure`] holding the full rendered report.
use vstd::prelude::*;
use vstd::string::*;

use crate::code_pred::CodePredicate;
use crate::code_pred::IntoCodePredicate;
use crate::output_pred::IntoOutputPredicate;
use crate::output_pred::OutputPredicate;
use crate::process_result::ProcessResult;
use crate::render::dec_str;
use crate::render::dump_buffer;
use crate::render::dump_spec;
use crate::render::i32_to_string;

verus! {

/// Why a check failed: the observed value did not match, or a code check
/// found no exit code to compare at all (the process was interrupted).
#[derive(Debug)]
pub enum FailureKind {
    Mismatch,
    MissingCode,
}

/// A failed check: its kind plus the full rendered diagnostic report.
#[derive(Debug)]
pub struct CheckFailure {
    pub kind: FailureKind,
    pub message: String,
}

/// One rendered context entry: ``name=`value` `` on its own line.
pub open spec fn context_line_spec(e: (&'static str, String)) -> Seq<char> {
    e.0@ + "=`"@ + e.1@ + "`"@ + "\n"@
}

/// The rendered context entries, in insertion order.
pub open spec fn context_lines_spec(ctx: Seq<(&'static str, String)>) -> Seq<char>
    decreases ctx.len(),
{
    if ctx.len() == 0 {
        Seq::<char>::empty()
    } else {
        context_lines_spec(ctx.drop_last()) + context_line_spec(ctx.last())
    }
}

/// The line reporting the exit code, or its absence.
pub open spec fn code_line_spec(code: Option<i32>) -> Seq<char> {
    match code {
        Some(c) => "code="@ + dec_str(c as int) + "\n"@,
        None => "code=<interrupted>"@ + "\n"@,
    }
}

/// The block reporting the exit code and both captured streams.
pub open spec fn output_block_spec(o: ProcessResult) -> Seq<char> {
    code_line_spec(o.code) + "stdout=```"@ + dump_spec(o.stdout@) + "```"@ + "\n"@ + "stderr=```"@
        + dump_spec(o.stderr@) + "```"@ + "\n"@
}

/// The whole diagnostic rendering of an assertion context: every context
/// entry in insertion order, then the recorded process result.
pub open spec fn display_spec(a: Assert) -> Seq<char> {
    context_lines_spec(a.spec_context()) + output_block_spec(a.spec_output())
}

/// The report of a `success` check that found an unsuccessful status.
pub open spec fn unexpected_failure_msg(a: Assert) -> Seq<char> {
    "Unexpected failure"@ + "\n"@ + display_spec(a)
}

/// The report of a `failure` check that found a successful status.
pub open spec fn unexpected_success_msg(a: Assert) -> Seq<char> {
    "Unexpected success"@ + "\n"@ + display_spec(a)
}

/// The report of an `interrupted` check that found an exit code.
pub open spec fn unexpected_completion_msg(a: Assert) -> Seq<char> {
    "Unexpected completion"@ + "\n"@ + display_spec(a)
}

/// The report of a `code` check on a process that yielded no exit code.
pub open spec fn interrupted_msg(a: Assert) -> Seq<char> {
    "Command interrupted"@ + "\n"@ + display_spec(a)
}

/// The report of a `code` check whose predicate rejected the exit code.
pub open spec fn code_mismatch_msg(a: Assert, case: Seq<char>) -> Seq<char> {
    "Unexpected return code, failed"@ + "\n"@ + case + display_spec(a)
}

/// The report of a `stdout` check whose predicate rejected the bytes.
pub open spec fn stdout_mismatch_msg(a: Assert, case: Seq<char>) -> Seq<char> {
    "Unexpected stdout, failed"@ + "\n"@ + case + display_spec(a)
}

/// The report of a `stderr` check whose predicate rejected the bytes.
pub open spec fn stderr_mismatch_msg(a: Assert, case: Seq<char>) -> Seq<char> {
    "Unexpected stderr, failed"@ + "\n"@ + case + display_spec(a)
}

/// Renders the context entries, one line each, in insertion order.
fn render_context(ctx: &Vec<(&'static str, String)>) -> (r: String)
    ensures
        r@ == context_lines_spec(ctx@),
{
    let mut s = String::new();
    let mut i: usize = 0;
    proof {
        assert(ctx@.take(0) =~= Seq::<(&'static str, String)>::empty());
    }
    while i < ctx.len()
        invariant
            i <= ctx@.len(),
            s@ == context_lines_spec(ctx@.take(i as int)),
        decreases ctx@.len() - i,
    {
        let e = &ctx[i];
        s.append(e.0);
        s.append("=`");
        s.append(e.1.as_str());
        s.append("`");
        s.append("\n");
        proof {
            let pre = ctx@.take(i + 1);
            assert(pre.drop_last() =~= ctx@.take(i as int));
            assert(pre.last() == ctx@[i as int]);
            assert(s@ =~= context_lines_spec(pre));
        }
        i += 1;
    }
    proof {
        assert(ctx@.take(ctx@.len() as int) =~= ctx@);
    }
    s
}

/// Renders the exit code and both captured streams.
fn render_output_block(o: &ProcessResult) -> (r: String)
    ensures
        r@ == output_block_spec(*o),
{
    let mut s = String::new();
    match &o.code {
        Some(c) => {
            s.append("code=");
            let d = i32_to_string(*c);
            s.append(d.as_str());
            s.append("\n");
        },
        None => {
            s.append("code=<interrupted>");
            s.append("\n");
        },
    }
    s.append("stdout=```");
    let out_dump = dump_buffer(o.stdout.as_slice());
    s.append(out_dump.as_str());
    s.append("```");
    s.append("\n");
    s.append("stderr=```");
    let err_dump = dump_buffer(o.stderr.as_slice());
    s.append(err_dump.as_str());
    s.append("```");
    s.append("\n");
    proof {
        assert(s@ =~= output_block_spec(*o));
    }
    s
}

/// Assert the state of a finished process.
#[derive(Debug)]
pub struct Assert {
    output: ProcessResult,
    context: Vec<(&'static str, String)>,
}

impl Assert {
    /// The recorded process result, which never changes once wrapped.
    pub closed spec fn spec_output(&self) -> ProcessResult {
        self.output
    }

    /// The diagnostic context entries, in insertion order.
    pub closed spec fn spec_context(&self) -> Seq<(&'static str, String)> {
        self.context@
    }

    /// Wraps a process result, with no context yet.
    pub fn new(output: ProcessResult) -> (r: Self)
        ensures
            r.spec_output() == output,
            r.spec_context() == Seq::<(&'static str, String)>::empty(),
    {
        Assert { output, context: Vec::new() }
    }

    /// Clarifies later failure reports with an additional named value; the
    /// recorded process result and earlier context entries are kept as they
    /// are.
    pub fn append_context(self, name: &'static str, context: String) -> (r: Self)
        ensures
            r.spec_output() == self.spec_output(),
            r.spec_context() == self.spec_context().push((name, context)),
    {
        let mut s = self;
        s.context.push((name, context));
        s
    }

    /// Access the contained process result.
    pub fn get_output(&self) -> (r: &ProcessResult)
        ensures
            *r == self.spec_output(),
    {
        &self.output
    }

    /// Renders the whole diagnostic view: context, then the process result.
    pub fn display(&self) -> (r: String)
        ensures
            r@ == display_spec(*self),
    {
        let mut s = render_context(&self.context);
        let block = render_output_block(&self.output);
        s.append(block.as_str());
        s
    }

    /// Builds a failure whose message is the given prefix line followed by
    /// the whole diagnostic view.
    fn fail(self, kind: FailureKind, prefix: &'static str) -> (r: CheckFailure)
        ensures
            r.kind == kind,
            r.message@ == prefix@ + "\n"@ + display_spec(self),
    {
        let mut m = String::from_str(prefix);
        m.append("\n");
        let d = self.display();
        m.append(d.as_str());
        CheckFailure { kind, message: m }
    }

    /// Builds a mismatch failure whose message is the given prefix line, the
    /// rendered explanation tree, then the whole diagnostic view.
    fn fail_case(self, prefix: &'static str, case: crate::tree::CaseTree) -> (r: CheckFailure)
        ensures
            r.kind == FailureKind::Mismatch,
            r.message@ == prefix@ + "\n"@ + crate::tree::render_spec(case) + display_spec(self),
    {
        let mut m = String::from_str(prefix);
        m.append("\n");
        let t = case.render();
        m.append(t.as_str());
        let d = self.display();
        m.append(d.as_str());
        CheckFailure { kind: FailureKind::Mismatch, message: m }
    }

    /// Ensure the command succeeded.
    pub fn success(self) -> (r: Result<Self, CheckFailure>)
        ensures
            self.spec_output().success ==> r == Ok::<Assert, CheckFailure>(self),
            !self.spec_output().success ==> (r matches Err(e) && e.kind is Mismatch && e.message@
                == unexpected_failure_msg(self)),
    {
        if self.output.success {
            Ok(self)
        } else {
            Err(self.fail(FailureKind::Mismatch, "Unexpected failure"))
        }
    }

    /// Ensure the command failed.
    pub fn failure(self) -> (r: Result<Self, CheckFailure>)
        ensures
            !self.spec_output().success ==> r == Ok::<Assert, CheckFailure>(self),
            self.spec_output().success ==> (r matches Err(e) && e.kind is Mismatch && e.message@
                == unexpected_success_msg(self)),
    {
        if !self.output.success {
            Ok(self)
        } else {
            Err(self.fail(FailureKind::Mismatch, "Unexpected success"))
        }
    }

    /// Ensure the command aborted before yielding an exit code.
    pub fn interrupted(self) -> (r: Result<Self, CheckFailure>)
        ensures
            self.spec_output().spec_interrupted() ==> r == Ok::<Assert, CheckFailure>(self),
            !self.spec_output().spec_interrupted() ==> (r matches Err(e) && e.kind is Mismatch
                && e.message@ == unexpected_completion_msg(self)),
    {
        if self.output.code.is_none() {
            Ok(self)
        } else {
            Err(self.fail(FailureKind::Mismatch, "Unexpected completion"))
        }
    }

    /// Ensure the command returned the expected code. The argument may be a
    /// single code, a collection of codes, or any code predicate. A process
    /// that yielded no exit code at all fails with the distinct
    /// [`FailureKind::MissingCode`], not with a mismatch.
    pub fn code<P: CodePredicate, I: IntoCodePredicate<P>>(self, pred: I) -> (r: Result<
        Self,
        CheckFailure,
    >)
        ensures
            self.spec_output().code is None ==> (r matches Err(e) && e.kind is MissingCode
                && e.message@ == interrupted_msg(self)),
            self.spec_output().code matches Some(c) ==> ((pred.spec_accepts(c) ==> r == Ok::<
                Assert,
                CheckFailure,
            >(self)) && (!pred.spec_accepts(c) ==> (r matches Err(e) && e.kind is Mismatch
                && e.message@ == code_mismatch_msg(self, pred.spec_explain(c))))),
    {
        let p = pred.into_code();
        self.code_impl(&p)
    }

    /// The code check against an already-coerced predicate.
    fn code_impl<P: CodePredicate>(self, pred: &P) -> (r: Result<Self, CheckFailure>)
        ensures
            self.spec_output().code is None ==> (r matches Err(e) && e.kind is MissingCode
                && e.message@ == interrupted_msg(self)),
            self.spec_output().code matches Some(c) ==> ((pred.spec_eval(c) ==> r == Ok::<
                Assert,
                CheckFailure,
            >(self)) && (!pred.spec_eval(c) ==> (r matches Err(e) && e.kind is Mismatch
                && e.message@ == code_mismatch_msg(self, pred.spec_case(c))))),
    {
        let code_opt = self.output.code;
        match code_opt {
            None => Err(self.fail(FailureKind::MissingCode, "Command interrupted")),
            Some(c) => {
                match pred.find_case(&c) {
                    Some(t) => Err(self.fail_case("Unexpected return code, failed", t)),
                    None => Ok(self),
                }
            },
        }
    }

    /// Ensure the command wrote the expected data to stdout. The argument may
    /// be a byte literal, a text string, a text predicate, or any output
    /// predicate.
    pub fn stdout<P: OutputPredicate, I: IntoOutputPredicate<P>>(self, pred: I) -> (r: Result<
        Self,
        CheckFailure,
    >)
        ensures
            pred.spec_accepts(self.spec_output().stdout@) ==> r == Ok::<Assert, CheckFailure>(self),
            !pred.spec_accepts(self.spec_output().stdout@) ==> (r matches Err(e)
                && e.kind is Mismatch && e.message@ == stdout_mismatch_msg(
                self,
                pred.spec_explain(self.spec_output().stdout@),
            )),
    {
        let p = pred.into_output();
        self.stdout_impl(&p)
    }

    /// The stdout check against an already-coerced predicate.
    fn stdout_impl<P: OutputPredicate>(self, pred: &P) -> (r: Result<Self, CheckFailure>)
        ensures
            pred.spec_eval(self.spec_output().stdout@) ==> r == Ok::<Assert, CheckFailure>(self),
            !pred.spec_eval(self.spec_output().stdout@) ==> (r matches Err(e) && e.kind is Mismatch
                && e.message@ == stdout_mismatch_msg(
                self,
                pred.spec_case(self.spec_output().stdout@),
            )),
    {
        let case = pred.find_case(self.output.stdout.as_slice());
        match case {
            Some(t) => Err(self.fail_case("Unexpected stdout, failed", t)),
            None => Ok(self),
        }
    }

    /// Ensure the command wrote the expected data to stderr. The argument may
    /// be a byte literal, a text string, a text predicate, or any output
    /// predicate.
    pub fn stderr<P: OutputPredicate, I: IntoOutputPredicate<P>>(self, pred: I) -> (r: Result<
        Self,
        CheckFailure,
    >)
        ensures
            pred.spec_accepts(self.spec_output().stderr@) ==> r == Ok::<Assert, CheckFailure>(self),
            !pred.spec_accepts(self.spec_output().stderr@) ==> (r matches Err(e)
                && e.kind is Mismatch && e.message@ == stderr_mismatch_msg(
                self,
                pred.spec_explain(self.spec_output().stderr@),
            )),
    {
        let p = pred.into_output();
        self.stderr_impl(&p)
    }

    /// The stderr check against an already-coerced predicate.
    fn stderr_impl<P: OutputPredicate>(self, pred: &P) -> (r: Result<Self, CheckFailure>)
        ensures
            pred.spec_eval(self.spec_output().stderr@) ==> r == Ok::<Assert, CheckFailure>(self),
            !pred.spec_eval(self.spec_output().stderr@) ==> (r matches Err(e) && e.kind is Mismatch
                && e.message@ == stderr_mismatch_msg(
                self,
                pred.spec_case(self.spec_output().stderr@),
            )),
    {
        let case = pred.find_case(self.output.stderr.as_slice());
        match case {
            Some(t) => Err(self.fail_case("Unexpected stderr, failed", t)),
            None => Ok(self),
        }
    }
}

/// Context entries appended one after another keep their insertion order in
/// the rendered report: the report shows everything already recorded, then
/// the first new entry, then the second. Together with each check's
/// guarantee that a passing check returns the context unchanged, the
/// recorded context only ever grows at the end.
pub proof fn lemma_context_lines_in_order(
    ctx: Seq<(&'static str, String)>,
    e1: (&'static str, String),
    e2: (&'static str, String),
)
    ensures
        context_lines_spec(ctx.push(e1).push(e2)) == context_lines_spec(ctx) + context_line_spec(e1)
            + context_line_spec(e2),
{
    assert(ctx.push(e1).push(e2).drop_last() =~= ctx.push(e1));
    assert(ctx.push(e1).push(e2).last() == e2);
    assert(ctx.push(e1).drop_last() =~= ctx);
    assert(ctx.push(e1).last() == e1);
    assert(context_lines_spec(ctx.push(e1)) == context_lines_spec(ctx) + context_line_spec(e1));
    assert(context_lines_spec(ctx.push(e1).push(e2)) == context_lines_spec(ctx.push(e1))
        + context_line_spec(e2));
    assert(context_lines_spec(ctx.push(e1).push(e2)) =~= context_lines_spec(ctx)
        + context_line_spec(e1) + context_line_spec(e2));
}

} // verus!
