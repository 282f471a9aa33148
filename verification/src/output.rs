//! Plain-text assembly of the shell's output: newline-joined function
//! lists, the fixed usage text with its aligned columns, and the
//! record separator that append mode prints after each command.

use vstd::prelude::*;

verus! {

/// `lines` joined by single newlines, with no trailing newline.
pub open spec fn spec_join_lines(l: Seq<Seq<char>>) -> Seq<char>
    decreases l.len(),
{
    if l.len() == 0 {
        Seq::empty()
    } else if l.len() == 1 {
        l[0]
    } else {
        spec_join_lines(l.drop_last()) + "\n"@ + l.last()
    }
}

/// Join owned lines with newlines, as the function list is printed.
pub fn join_lines(lines: &Vec<String>) -> (r: String)
    ensures
        r@ == spec_join_lines(lines@.map_values(|s: String| s@)),
{
    let ghost m = lines@.map_values(|s: String| s@);
    let mut out = String::new();
    let mut i: usize = 0;
    while i < lines.len()
        invariant
            i <= lines.len(),
            m == lines@.map_values(|s: String| s@),
            m.len() == lines@.len(),
            out@ == spec_join_lines(m.take(i as int)),
        decreases lines.len() - i,
    {
        if i > 0 {
            out.append("\n");
        }
        out.append(lines[i].as_str());
        proof {
            let t = m.take(i + 1 as int);
            assert(t.drop_last() =~= m.take(i as int));
            assert(t.last() == m[i as int]);
            if i == 0 {
                assert(out@ =~= spec_join_lines(t));
            }
        }
        i = i + 1;
    }
    proof {
        assert(m.take(lines@.len() as int) =~= m);
    }
    out
}

/// `s` padded on the right with spaces to width `w`; a string already
/// that wide is left alone.
pub open spec fn spec_pad(s: Seq<char>, w: int) -> Seq<char> {
    if s.len() >= w {
        s
    } else {
        s + Seq::new((w - s.len()) as nat, |i: int| ' ')
    }
}

/// Pad a column entry on the right with spaces to the given width.
pub fn pad_to(s: &str, width: usize) -> (r: String)
    ensures
        r@ == spec_pad(s@, width as int),
{
    let mut out = s.to_owned();
    let n = s.unicode_len();
    if n >= width {
        return out;
    }
    proof {
        reveal_strlit(" ");
    }
    let mut i = n;
    while i < width
        invariant
            n <= i <= width,
            n == s@.len(),
            " "@ =~= seq![' '],
            out@ =~= s@ + Seq::new((i - n) as nat, |j: int| ' '),
        decreases width - i,
    {
        out.append(" ");
        proof {
            assert(out@ =~= s@ + Seq::new((i + 1 - n) as nat, |j: int| ' '));
        }
        i = i + 1;
    }
    proof {
        assert(out@ =~= spec_pad(s@, width as int));
    }
    out
}

/// The width of the command column in the usage text.
pub open spec fn usage_width() -> int {
    30
}

/// The fixed usage text, one aligned line per verb.
pub open spec fn spec_help_text() -> Seq<char> {
    spec_pad("help"@, usage_width()) + "    Show this help"@ + "\n"@ + spec_pad(
        "load path"@,
        usage_width(),
    ) + "    Load binary"@ + "\n"@ + spec_pad("connect (http|tcp)://<url>"@, usage_width())
        + "    Connect to radare2 server"@ + "\n"@ + spec_pad("fn_list"@, usage_width())
        + "    Show function list"@ + "\n"@ + spec_pad("analyze <func>"@, usage_width())
        + "    Analyze <func>"@ + "\n"@ + spec_pad("ir <func>"@, usage_width())
        + "    Emit IR of <func>"@ + "\n"@ + spec_pad("dot <func>"@, usage_width())
        + "    Emit graph of the IR in Graphviz dot"@ + "\n"@ + spec_pad(
        "decompile <func>"@,
        usage_width(),
    ) + "    Decompile <func>"@ + "\n"@ + spec_pad("quit"@, usage_width())
        + "    Quit interactive prompt"@
}

/// Build the usage text that `help` prints.
pub fn help_text() -> (r: String)
    ensures
        r@ == spec_help_text(),
{
    let mut out = pad_to("help", 30);
    out.append("    Show this help");
    out.append("\n");
    let col = pad_to("load path", 30);
    out.append(col.as_str());
    out.append("    Load binary");
    out.append("\n");
    let col = pad_to("connect (http|tcp)://<url>", 30);
    out.append(col.as_str());
    out.append("    Connect to radare2 server");
    out.append("\n");
    let col = pad_to("fn_list", 30);
    out.append(col.as_str());
    out.append("    Show function list");
    out.append("\n");
    let col = pad_to("analyze <func>", 30);
    out.append(col.as_str());
    out.append("    Analyze <func>");
    out.append("\n");
    let col = pad_to("ir <func>", 30);
    out.append(col.as_str());
    out.append("    Emit IR of <func>");
    out.append("\n");
    let col = pad_to("dot <func>", 30);
    out.append(col.as_str());
    out.append("    Emit graph of the IR in Graphviz dot");
    out.append("\n");
    let col = pad_to("decompile <func>", 30);
    out.append(col.as_str());
    out.append("    Decompile <func>");
    out.append("\n");
    let col = pad_to("quit", 30);
    out.append(col.as_str());
    out.append("    Quit interactive prompt");
    out
}

/// The record separator printed after each dispatched line in append
/// mode.
pub fn separator_text() -> (s: &'static str)
    ensures
        s@ == "END"@,
{
    "END"
}

} // verus!
