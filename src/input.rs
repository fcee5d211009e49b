use vstd::prelude::*;

verus! {

/// Lines joined by a newline between each two of them.
pub open spec fn join_lines(lines: Seq<Seq<char>>) -> Seq<char>
    decreases lines.len(),
{
    if lines.len() == 0 {
        Seq::empty()
    } else if lines.len() == 1 {
        lines[0]
    } else {
        join_lines(lines.drop_last()) + seq!['\n'] + lines.last()
    }
}

/// The text of each line.
pub open spec fn line_texts(lines: Seq<String>) -> Seq<Seq<char>> {
    lines.map_values(|l: String| l@)
}

/// Whether the first `k` lines hold the whole secret: none of them is empty,
/// and either no line follows or the next one is empty.
pub open spec fn is_secret_block(lines: Seq<Seq<char>>, k: int) -> bool {
    &&& 0 <= k <= lines.len()
    &&& forall|j: int| 0 <= j < k ==> #[trigger] lines[j].len() > 0
    &&& (k == lines.len() || lines[k].len() == 0)
}

/// The secret typed or piped in line by line: the lines up to the first empty
/// one (or all of them), joined by newlines.
pub fn join_input_lines(lines: &Vec<String>) -> (r: String)
    ensures
        exists|k: int|
            is_secret_block(line_texts(lines@), k) && r@ == join_lines(
                #[trigger] line_texts(lines@).take(k),
            ),
{
    let ghost texts = line_texts(lines@);
    let n = lines.len();
    let mut out = String::new();
    let mut i: usize = 0;
    while i < n
        invariant
            n == lines@.len(),
            texts == line_texts(lines@),
            i <= n,
            forall|j: int| 0 <= j < i ==> #[trigger] texts[j].len() > 0,
            out@ == join_lines(texts.take(i as int)),
        ensures
            i <= n,
            forall|j: int| 0 <= j < i ==> #[trigger] texts[j].len() > 0,
            i == n || texts[i as int].len() == 0,
            out@ == join_lines(texts.take(i as int)),
        decreases n - i,
    {
        let line = lines[i].as_str();
        assert(texts[i as int] == line@);
        if line.unicode_len() == 0 {
            break;
        }
        if i > 0 {
            out.append("\n");
        }
        out.append(line);
        proof {
            reveal_strlit("\n");
            let prefix = texts.take(i + 1);
            assert(prefix.drop_last() =~= texts.take(i as int));
            assert(prefix.last() == texts[i as int]);
            if i == 0 {
                assert(out@ =~= prefix[0]);
            } else {
                assert(out@ =~= join_lines(prefix.drop_last()) + seq!['\n'] + prefix.last());
            }
        }
        i = i + 1;
    }
    assert(is_secret_block(texts, i as int));
    out
}

/// Joining lines that are neither empty nor hold a newline gives a text that
/// neither starts nor ends with a newline, and never has two in a row.
pub proof fn lemma_joined_newlines(lines: Seq<Seq<char>>)
    requires
        forall|k: int| 0 <= k < lines.len() ==> #[trigger] lines[k].len() > 0,
        forall|k: int, i: int|
            0 <= k < lines.len() && 0 <= i < lines[k].len() ==> #[trigger] lines[k][i] != '\n',
    ensures
        lines.len() > 0 ==> join_lines(lines).len() > 0 && join_lines(lines)[0] != '\n'
            && join_lines(lines).last() != '\n',
        forall|i: int|
            0 <= i < join_lines(lines).len() - 1 ==> !(#[trigger] join_lines(lines)[i] == '\n'
                && join_lines(lines)[i + 1] == '\n'),
    decreases lines.len(),
{
    if lines.len() == 1 {
        let b = lines[0];
        assert(b[0] != '\n');
        assert(b[b.len() - 1] != '\n');
        assert forall|i: int| 0 <= i < b.len() - 1 implies !(#[trigger] b[i] == '\n' && b[i
            + 1] == '\n') by {
            assert(lines[0][i] != '\n');
        }
    } else if lines.len() > 1 {
        let rest = lines.drop_last();
        lemma_joined_newlines(rest);
        let a = join_lines(rest);
        let b = lines.last();
        let j = join_lines(lines);
        assert(j == a + seq!['\n'] + b);
        assert(rest[0] == lines[0]);
        assert(j[0] == a[0]);
        assert(b[b.len() - 1] == lines[lines.len() - 1][b.len() - 1]);
        assert(j.last() == b[b.len() - 1]);
        assert(b[0] == lines[lines.len() - 1][0]);
        assert forall|i: int| 0 <= i < j.len() - 1 implies !(#[trigger] j[i] == '\n' && j[i
            + 1] == '\n') by {
            if i < a.len() - 1 {
                assert(j[i] == a[i] && j[i + 1] == a[i + 1]);
            } else if i == a.len() - 1 {
                assert(j[i] == a.last());
            } else if i == a.len() {
                assert(j[i + 1] == b[0]);
            } else {
                assert(j[i] == b[i - a.len() - 1]);
                assert(lines[lines.len() - 1][i - a.len() - 1] != '\n');
            }
        }
    }
}

} // verus!
