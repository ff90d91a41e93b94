use vstd::prelude::*;
use vstd::string::StringExecFns;
use crate::text::{
    contains_seq, is_prefix_of, trim_of, lines_of, join_of, str_to_chars, contains_chars,
    starts_with_chars, trim_chars, split_lines, join_lines, chars_to_string,
};
use crate::CommandOutput;

verus! {

// One exchange with the wrapped interpreter writes a statement and a quit
// directive, captures everything the subprocess printed on both streams,
// and recovers the result by filtering that raw text line by line.

/// A line of raw interpreter output that carries no result: the welcome
/// banner, the help hint, the farewell, a prompt echo, or only whitespace.
pub open spec fn noise_line(l: Seq<char>) -> bool {
    contains_seq(l, "Welcome to Ruchy REPL"@) || contains_seq(l, "Type :help"@) || contains_seq(
        l,
        "Goodbye!"@,
    ) || is_prefix_of("ruchy>"@, l) || trim_of(l).len() == 0
}

/// A line that begins with the interpreter's return sentinel: despite the
/// error-like prefix it reports successful completion, and the value
/// follows the sentinel.
pub open spec fn sentinel_line(l: Seq<char>) -> bool {
    is_prefix_of("Error: return:"@, l)
}

/// A line that reports a genuine failure: it has the error prefix and is
/// not a return-sentinel line.
pub open spec fn genuine_error_line(l: Seq<char>) -> bool {
    is_prefix_of("Error:"@, l) && !sentinel_line(l)
}

/// What a kept line contributes to the cleaned output: a sentinel line is
/// rewritten to its trailing value, any other line passes unchanged.
pub open spec fn rendered_line(l: Seq<char>) -> Seq<char> {
    if sentinel_line(l) {
        trim_of(l.skip("Error: return:"@.len() as int))
    } else {
        l
    }
}

/// The lines that survive the noise filter, in order, each rendered.
pub open spec fn kept_of(ls: Seq<Seq<char>>) -> Seq<Seq<char>>
    decreases ls.len(),
{
    if ls.len() == 0 {
        Seq::empty()
    } else {
        let rest = kept_of(ls.drop_last());
        if noise_line(ls.last()) {
            rest
        } else {
            rest.push(rendered_line(ls.last()))
        }
    }
}

/// Whether the exchange succeeded: false exactly when the first line that
/// survives the noise filter is a genuine error line.
pub open spec fn verdict_of(ls: Seq<Seq<char>>) -> bool
    decreases ls.len(),
{
    if ls.len() == 0 {
        true
    } else if noise_line(ls.first()) {
        verdict_of(ls.drop_first())
    } else {
        !genuine_error_line(ls.first())
    }
}

/// The cleaned output of one exchange: kept lines, rendered, joined with
/// line feeds, and trimmed.
pub open spec fn repl_clean_of(raw: Seq<char>) -> Seq<char> {
    trim_of(join_of(kept_of(lines_of(raw))))
}

/// The success verdict of one exchange over the raw combined output.
pub open spec fn repl_ok_of(raw: Seq<char>) -> bool {
    verdict_of(lines_of(raw))
}

fn copy_range(v: &Vec<char>, from: usize, to: usize) -> (r: Vec<char>)
    requires
        from <= to <= v@.len(),
    ensures
        r@ == v@.subrange(from as int, to as int),
{
    let mut r: Vec<char> = Vec::new();
    let mut i: usize = from;
    while i < to
        invariant
            from <= i <= to <= v@.len(),
            r@ == v@.subrange(from as int, i as int),
        decreases to - i,
    {
        r.push(v[i]);
        proof {
            assert(v@.subrange(from as int, i + 1) =~= v@.subrange(from as int, i as int).push(
                v@[i as int],
            ));
        }
        i += 1;
    }
    r
}

fn process_lines(ls: &Vec<Vec<char>>) -> (r: (Vec<Vec<char>>, bool))
    ensures
        r.0.deep_view() == kept_of(ls.deep_view()),
        r.1 == verdict_of(ls.deep_view()),
{
    let pat_welcome = str_to_chars("Welcome to Ruchy REPL");
    let pat_help = str_to_chars("Type :help");
    let pat_bye = str_to_chars("Goodbye!");
    let pat_prompt = str_to_chars("ruchy>");
    let pat_sentinel = str_to_chars("Error: return:");
    let pat_error = str_to_chars("Error:");
    let ghost lv = ls.deep_view();
    let mut kept: Vec<Vec<char>> = Vec::new();
    let mut decided = false;
    let mut ok = true;
    let mut i: usize = 0;
    proof {
        assert(kept.deep_view() =~~= kept_of(lv.take(0)));
        assert(lv.skip(0) =~= lv);
    }
    while i < ls.len()
        invariant
            i <= ls@.len(),
            lv == ls.deep_view(),
            lv.len() == ls@.len(),
            pat_welcome@ == "Welcome to Ruchy REPL"@,
            pat_help@ == "Type :help"@,
            pat_bye@ == "Goodbye!"@,
            pat_prompt@ == "ruchy>"@,
            pat_sentinel@ == "Error: return:"@,
            pat_error@ == "Error:"@,
            kept.deep_view() == kept_of(lv.take(i as int)),
            verdict_of(lv) == (if decided {
                ok
            } else {
                verdict_of(lv.skip(i as int))
            }),
            !decided ==> ok,
        decreases ls@.len() - i,
    {
        let line = &ls[i];
        proof {
            assert(line@ =~= lv[i as int]);
        }
        let trimmed = trim_chars(line);
        let noise = contains_chars(line, &pat_welcome) || contains_chars(line, &pat_help)
            || contains_chars(line, &pat_bye) || starts_with_chars(line, &pat_prompt)
            || trimmed.len() == 0;
        proof {
            assert(noise == noise_line(lv[i as int]));
            assert(lv.take(i + 1).drop_last() =~= lv.take(i as int));
            assert(lv.take(i + 1).last() == lv[i as int]);
            assert(lv.skip(i as int).len() > 0);
            assert(lv.skip(i as int).first() == lv[i as int]);
            assert(lv.skip(i as int).drop_first() =~= lv.skip(i + 1));
        }
        if noise {
            proof {
                assert(kept_of(lv.take(i + 1)) == kept_of(lv.take(i as int)));
            }
        } else {
            let is_sentinel = starts_with_chars(line, &pat_sentinel);
            let rendered = if is_sentinel {
                let suffix = copy_range(line, pat_sentinel.len(), line.len());
                proof {
                    assert(suffix@ =~= line@.skip("Error: return:"@.len() as int));
                }
                trim_chars(&suffix)
            } else {
                copy_range(line, 0, line.len())
            };
            proof {
                if !is_sentinel {
                    assert(rendered@ =~= line@);
                }
                assert(rendered@ == rendered_line(lv[i as int]));
            }
            if !decided {
                decided = true;
                ok = !(starts_with_chars(line, &pat_error) && !is_sentinel);
                proof {
                    assert(ok == !genuine_error_line(lv[i as int]));
                }
            }
            let ghost old_kept = kept.deep_view();
            kept.push(rendered);
            proof {
                assert(kept.deep_view() =~~= old_kept.push(rendered@));
                assert(kept_of(lv.take(i + 1)) == kept_of(lv.take(i as int)).push(
                    rendered_line(lv[i as int]),
                ));
            }
        }
        i += 1;
    }
    proof {
        assert(lv.take(lv.len() as int) =~= lv);
        if !decided {
            assert(lv.skip(lv.len() as int) =~= Seq::<Seq<char>>::empty());
        }
    }
    (kept, ok)
}

/// One exchange's captured output, filtered into a clean result.
///
/// The wrapped interpreter may route its true result to either stream, so
/// stdout and stderr are concatenated before filtering. The result's
/// `stdout` is the cleaned text, `success` is the verdict, and `stderr`
/// keeps the raw error stream only when the exchange failed.
pub fn filter_repl_output(raw_stdout: &str, raw_stderr: &str) -> (r: CommandOutput)
    ensures
        r.stdout@ == repl_clean_of(raw_stdout@ + raw_stderr@),
        r.success == repl_ok_of(raw_stdout@ + raw_stderr@),
        r.success ==> r.stderr@ == Seq::<char>::empty(),
        !r.success ==> r.stderr@ == raw_stderr@,
{
    let mut combined = str_to_chars(raw_stdout);
    let mut tail = str_to_chars(raw_stderr);
    combined.append(&mut tail);
    let lines = split_lines(&combined);
    let processed = process_lines(&lines);
    let joined = join_lines(&processed.0);
    let cleaned = trim_chars(&joined);
    let out = chars_to_string(&cleaned);
    let err = if processed.1 {
        String::new()
    } else {
        raw_stderr.to_owned()
    };
    CommandOutput { stdout: out, stderr: err, success: processed.1 }
}

/// The full text written to the interpreter's standard input for one
/// exchange: the statement, a line feed, and the quit directive.
pub fn repl_input(statement: &str) -> (r: String)
    ensures
        r@ == statement@ + "\n:quit\n"@,
{
    let mut s = statement.to_owned();
    s.append("\n:quit\n");
    s
}

} // verus!
