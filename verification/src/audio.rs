//! Reading the transcript out of the speech recogniser's output.
use vstd::prelude::*;
use crate::actions::{output_view, ProcessOutput};
use crate::text::{decode_utf8_lossy, lemma_after_last_newline_of_last_line, lemma_trim_idempotent,
    lemma_trimmed_ignores_trailing_white_space, join, last_line, last_line_of, trim, trimmed, utf8_lossy};

verus! {

/// The transcript in the recogniser's printed text: its last line, without
/// surrounding white space (empty when nothing was printed).
pub open spec fn transcript_of(printed: Seq<char>) -> Seq<char> {
    match last_line(printed) {
        Some(line) => trimmed(line),
        None => trimmed(Seq::empty()),
    }
}

/// The outcome of recognising speech, given how the recogniser ran.
pub open spec fn transcription_report(output: Result<(bool, Seq<u8>, Seq<u8>), Seq<char>>) -> Result<
    Seq<char>,
    Seq<char>,
> {
    match output {
        Err(e) => Err("whisper-cli не найден: "@ + e),
        Ok((success, stdout, stderr)) => if !success {
            Err("Ошибка распознавания: "@ + utf8_lossy(stderr))
        } else if transcript_of(utf8_lossy(stdout)).len() == 0 {
            Err("Не удалось распознать речь"@)
        } else {
            Ok(transcript_of(utf8_lossy(stdout)))
        },
    }
}

/// The transcript that the recogniser printed, or why there is none.
pub fn transcription_outcome(output: Result<ProcessOutput, String>) -> (r: Result<String, String>)
    ensures
        match r {
            Ok(s) => transcription_report(output_view(output)) == Ok::<Seq<char>, Seq<char>>(s@),
            Err(e) => transcription_report(output_view(output)) == Err::<Seq<char>, Seq<char>>(e@),
        },
        r matches Ok(s) ==> trimmed(s@) == s@ && s@.len() > 0,
{
    match output {
        Err(e) => Err(join("whisper-cli не найден: ", e.as_str())),
        Ok(o) => {
            if !o.success {
                let err = decode_utf8_lossy(o.stderr.as_slice());
                return Err(join("Ошибка распознавания: ", err.as_str()));
            }
            let printed = decode_utf8_lossy(o.stdout.as_slice());
            let transcript = match last_line_of(printed.as_str()) {
                Some(line) => trim(line.as_str()),
                None => trim(""),
            };
            proof {
                reveal_strlit("");
                match last_line(printed@) {
                    Some(line) => lemma_trim_idempotent(line),
                    None => lemma_trim_idempotent(Seq::empty()),
                }
            }
            if transcript.as_str().unicode_len() == 0 {
                Err(String::from_str("Не удалось распознать речь"))
            } else {
                Ok(transcript)
            }
        },
    }
}

/// The transcript is the last printed line, trimmed, whatever was printed
/// before it: both when the output ends with a line feed and when it does not.
pub proof fn lemma_transcript_is_last_line(earlier: Seq<char>, line: Seq<char>)
    requires
        !line.contains('\n'),
        earlier.len() == 0 || earlier.last() == '\n',
    ensures
        transcript_of(earlier + line + seq!['\n']) == trimmed(line),
        line.len() > 0 ==> transcript_of(earlier + line) == trimmed(line),
{
    lemma_after_last_newline_of_last_line(earlier, line);
    let printed = earlier + line + seq!['\n'];
    assert(printed.drop_last() =~= earlier + line);
    if line.len() > 0 && line.last() == '\r' {
        assert(line.drop_last().push('\r') =~= line);
        lemma_trimmed_ignores_trailing_white_space(line.drop_last(), '\r');
    }
    if line.len() > 0 {
        assert((earlier + line).last() == line.last());
        assert(line.last() != '\n') by {
            if line.last() == '\n' {
                assert(line[line.len() - 1] == '\n');
            }
        }
    }
}

/// When the recogniser succeeds and its output ends with a line, that line,
/// trimmed, is the transcript; only a blank last line is reported as speech
/// that could not be recognised.
pub proof fn lemma_recognised_speech(
    stdout: Seq<u8>,
    stderr: Seq<u8>,
    earlier: Seq<char>,
    line: Seq<char>,
)
    requires
        !line.contains('\n'),
        earlier.len() == 0 || earlier.last() == '\n',
    ensures
        utf8_lossy(stdout) == earlier + line + seq!['\n'] && trimmed(line).len() > 0
            ==> transcription_report(Ok((true, stdout, stderr))) == Ok::<Seq<char>, Seq<char>>(
            trimmed(line),
        ),
        utf8_lossy(stdout) == earlier + line + seq!['\n'] && trimmed(line).len() == 0
            ==> transcription_report(Ok((true, stdout, stderr))) == Err::<Seq<char>, Seq<char>>(
            "Не удалось распознать речь"@,
        ),
{
    lemma_transcript_is_last_line(earlier, line);
}
} // verus!
