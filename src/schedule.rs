use vstd::prelude::*;

verus! {

/// The tag that marks the jobs that this tool registers.
pub open spec fn marker() -> Seq<char> {
    seq!['#', 'r', 'b', 'a', 'c', 'k', 'u', 'p', '_', 't', 'a', 's', 'k']
}

/// The name under which the tool's task is registered with a task scheduler.
pub open spec fn task_name() -> Seq<char> {
    marker().drop_first()
}

/// Whether `m` occurs in `s` at `i`.
pub open spec fn occurs_at(s: Seq<char>, m: Seq<char>, i: int) -> bool {
    0 <= i && i + m.len() <= s.len() && s.subrange(i, i + m.len()) == m
}

/// Whether `m` occurs in `s`.
pub open spec fn contains_seq(s: Seq<char>, m: Seq<char>) -> bool {
    exists|i: int| #[trigger] occurs_at(s, m, i)
}

/// The command line that runs one backup unattended, tagged with the marker.
pub open spec fn task_command_of(
    exe: Seq<char>,
    config: Seq<char>,
    source: Seq<char>,
    remote_path: Seq<char>,
    server: Seq<char>,
) -> Seq<char> {
    exe + seq![' ', 's', 't', 'a', 'r', 't', ' ', '-', 'c', ' '] + config + seq![' ', '-', 's', ' ']
        + source + seq![' ', '-', 'p', ' '] + remote_path + seq![' ', '-', 'r', ' '] + server
        + seq![' '] + marker()
}

/// The lines of `lines` that do not hold the marker, in order.
pub open spec fn without_marked(lines: Seq<String>) -> Seq<String>
    decreases lines.len(),
{
    if lines.len() == 0 {
        Seq::empty()
    } else if contains_seq(lines.last()@, marker()) {
        without_marked(lines.drop_last())
    } else {
        without_marked(lines.drop_last()).push(lines.last())
    }
}

/// The lines joined with a line break between each two.
pub open spec fn joined(lines: Seq<Seq<char>>) -> Seq<char>
    decreases lines.len(),
{
    if lines.len() == 0 {
        Seq::empty()
    } else if lines.len() == 1 {
        lines[0]
    } else {
        joined(lines.drop_last()) + seq!['\n'] + lines.last()
    }
}

/// The marker as a string.
pub fn task_marker() -> (r: String)
    ensures
        r@ == marker(),
{
    proof {
        reveal_strlit("#rbackup_task");
    }
    String::from_str("#rbackup_task")
}

/// Whether `m` occurs in `s` at `i`.
fn matches_at(s: &str, slen: usize, m: &str, i: usize) -> (r: bool)
    requires
        slen == s@.len(),
        i + m@.len() <= s@.len(),
    ensures
        r == occurs_at(s@, m@, i as int),
{
    let mlen = m.unicode_len();
    let mut k: usize = 0;
    while k < mlen
        invariant
            mlen == m@.len(),
            slen == s@.len(),
            i + mlen <= slen,
            k <= mlen,
            forall|j: int| 0 <= j < k ==> s@[i + j] == m@[j],
        decreases mlen - k,
    {
        if s.get_char(i + k) != m.get_char(k) {
            assert(s@.subrange(i as int, i + m@.len())[k as int] != m@[k as int]);
            return false;
        }
        k = k + 1;
    }
    assert(s@.subrange(i as int, i + m@.len()) =~= m@);
    true
}

/// Whether `m` occurs in `s`.
pub fn contains_text(s: &str, m: &str) -> (r: bool)
    ensures
        r == contains_seq(s@, m@),
{
    let slen = s.unicode_len();
    let mlen = m.unicode_len();
    if mlen > slen {
        assert forall|i: int| !occurs_at(s@, m@, i) by {}
        return false;
    }
    let last = slen - mlen;
    let mut i: usize = 0;
    loop
        invariant
            slen == s@.len(),
            mlen == m@.len(),
            last == slen - mlen,
            i <= last,
            forall|j: int| 0 <= j < i ==> !#[trigger] occurs_at(s@, m@, j),
        decreases last - i,
    {
        if matches_at(s, slen, m, i) {
            return true;
        }
        if i == last {
            assert forall|j: int| !#[trigger] occurs_at(s@, m@, j) by {
                if 0 <= j < i {
                }
            }
            return false;
        }
        i = i + 1;
    }
}

/// The command line that an outside scheduler runs for one backup: the
/// program, `start` with the configuration, source, remote path and
/// destination, and the marker as a trailing comment.
pub fn task_command(exe: &str, config: &str, source: &str, remote_path: &str, server: &str) -> (r:
    String)
    ensures
        r@ == task_command_of(exe@, config@, source@, remote_path@, server@),
{
    proof {
        reveal_strlit(" start -c ");
        reveal_strlit(" -s ");
        reveal_strlit(" -p ");
        reveal_strlit(" -r ");
        reveal_strlit(" ");
    }
    let mut r = String::from_str(exe);
    r.append(" start -c ");
    r.append(config);
    r.append(" -s ");
    r.append(source);
    r.append(" -p ");
    r.append(remote_path);
    r.append(" -r ");
    r.append(server);
    r.append(" ");
    let m = task_marker();
    r.append(m.as_str());
    assert(r@ =~= task_command_of(exe@, config@, source@, remote_path@, server@));
    r
}

/// A crontab line: the schedule, a space, the command.
pub fn cron_entry(cron: &str, command: &str) -> (r: String)
    ensures
        r@ == cron@ + seq![' '] + command@,
{
    proof {
        reveal_strlit(" ");
    }
    let mut r = String::from_str(cron);
    r.append(" ");
    r.append(command);
    r
}

/// The crontab lines that this tool did not register, in order.
pub fn remove_marked(lines: &Vec<String>) -> (r: Vec<String>)
    ensures
        r@ == without_marked(lines@),
{
    let m = task_marker();
    let mut out: Vec<String> = Vec::new();
    let mut i: usize = 0;
    while i < lines.len()
        invariant
            m@ == marker(),
            i <= lines@.len(),
            out@ == without_marked(lines@.subrange(0, i as int)),
        decreases lines@.len() - i,
    {
        assert(lines@.subrange(0, i + 1).drop_last() =~= lines@.subrange(0, i as int));
        if !contains_text(lines[i].as_str(), m.as_str()) {
            out.push(lines[i].clone());
        }
        i = i + 1;
    }
    assert(lines@.subrange(0, i as int) =~= lines@);
    out
}

/// The lines joined with a line break between each two.
pub fn join_lines(lines: &Vec<String>) -> (r: String)
    ensures
        r@ == joined(lines@.map_values(|l: String| l@)),
{
    proof {
        reveal_strlit("\n");
    }
    let mut r = String::new();
    let mut i: usize = 0;
    while i < lines.len()
        invariant
            i <= lines@.len(),
            r@ == joined(lines@.subrange(0, i as int).map_values(|l: String| l@)),
        decreases lines@.len() - i,
    {
        let ghost before = lines@.subrange(0, i as int).map_values(|l: String| l@);
        let ghost after = lines@.subrange(0, i + 1).map_values(|l: String| l@);
        assert(after.drop_last() =~= before);
        assert(after.last() == lines@[i as int]@);
        if i > 0 {
            let ghost r0 = r@;
            let nl = "\n";
            proof {
                reveal_strlit("\n");
            }
            assert(nl@ =~= seq!['\n']);
            r.append(nl);
            r.append(lines[i].as_str());
            assert(r@ =~= r0 + seq!['\n'] + lines@[i as int]@);
            assert(joined(after) == joined(before) + seq!['\n'] + after.last());
            assert(r@ =~= joined(after));
        } else {
            r.append(lines[i].as_str());
            assert(after.len() == 1);
            assert(before =~= Seq::<Seq<char>>::empty());
            assert(r@ =~= joined(after));
        }
        i = i + 1;
    }
    assert(lines@.subrange(0, i as int) =~= lines@);
    r
}

/// The label of a task's name in a task scheduler's listing.
pub open spec fn listing_label() -> Seq<char> {
    seq!['任', '务', '名', '称', ':', ' ']
}

/// The separator between the fields of a listing line.
pub open spec fn field_sep() -> Seq<char> {
    seq![':', ' ']
}

/// `r` is what precedes the first separator in `s`, or all of `s` when it
/// holds none.
pub open spec fn is_first_field(s: Seq<char>, r: Seq<char>) -> bool {
    ||| (r.len() <= s.len() && r == s.subrange(0, r.len() as int) && occurs_at(
        s,
        field_sep(),
        r.len() as int,
    ) && forall|j: int| 0 <= j < r.len() ==> !#[trigger] occurs_at(s, field_sep(), j))
    ||| (r == s && forall|j: int| !#[trigger] occurs_at(s, field_sep(), j))
}

/// What precedes the first separator in `s`, or all of `s`.
fn first_field(s: &str) -> (r: String)
    ensures
        is_first_field(s@, r@),
{
    proof {
        reveal_strlit(": ");
    }
    let sep = ": ";
    assert(sep@ =~= field_sep());
    let slen = s.unicode_len();
    let mut i: usize = 0;
    while i < slen
        invariant
            slen == s@.len(),
            sep@ == field_sep(),
            i <= slen,
            forall|j: int| 0 <= j < i ==> !#[trigger] occurs_at(s@, field_sep(), j),
        decreases slen - i,
    {
        if 2 <= slen - i && matches_at(s, slen, sep, i) {
            let r = String::from_str(s.substring_char(0, i));
            return r;
        }
        i = i + 1;
    }
    assert forall|j: int| !#[trigger] occurs_at(s@, field_sep(), j) by {
        if 0 <= j < i {
        }
    }
    assert(s@.subrange(0, slen as int) =~= s@);
    String::from_str(s.substring_char(0, slen))
}

/// The name of this tool's task on a line of a task scheduler's listing: the
/// field after the name label, when the line starts with that label and holds
/// the task name.
pub fn listed_task_name(line: &str) -> (r: Option<String>)
    ensures
        !(occurs_at(line@, listing_label(), 0) && contains_seq(line@, task_name())) ==> r.is_none(),
        occurs_at(line@, listing_label(), 0) && contains_seq(line@, task_name()) ==> (r matches Some(
            f,
        ) && is_first_field(line@.subrange(listing_label().len() as int, line@.len() as int), f@)),
{
    proof {
        reveal_strlit("任务名称: ");
        reveal_strlit("rbackup_task");
    }
    let label = "任务名称: ";
    let name = "rbackup_task";
    assert(label@ =~= listing_label());
    assert(name@ =~= task_name());
    let slen = line.unicode_len();
    let llen = label.unicode_len();
    if llen > slen || !matches_at(line, slen, label, 0) {
        return None;
    }
    if !contains_text(line, name) {
        return None;
    }
    let rest = line.substring_char(llen, slen);
    Some(first_field(rest))
}

/// Removing the tool's jobs leaves no marked line and keeps every other line,
/// and doing it twice removes nothing more.
pub proof fn lemma_remove_marked(lines: Seq<String>)
    ensures
        forall|i: int|
            0 <= i < without_marked(lines).len() ==> !contains_seq(
                (#[trigger] without_marked(lines)[i])@,
                marker(),
            ),
        without_marked(without_marked(lines)) == without_marked(lines),
    decreases lines.len(),
{
    if lines.len() > 0 {
        lemma_remove_marked(lines.drop_last());
        let w = without_marked(lines.drop_last());
        if !contains_seq(lines.last()@, marker()) {
            assert(w.push(lines.last()).drop_last() =~= w);
        }
    }
}

} // verus!
