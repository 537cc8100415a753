use vstd::prelude::*;

use crate::text::{decimal, decimal_string, ends_with, has_suffix};
use crate::types::{DuplexMode, Orientation, PageRange, PaperSize, PrintSettings};

verus! {

/// The suffix of a single-sided queue.
pub open spec fn sx() -> Seq<char> {
    seq!['-', 's', 'x']
}

/// The suffix of a queue that keeps its name for single-sided jobs.
pub open spec fn nb() -> Seq<char> {
    seq!['-', 'n', 'b']
}

/// `q` with every trailing `-sx` removed.
pub open spec fn strip_sx(q: Seq<char>) -> Seq<char>
    decreases q.len(),
{
    if has_suffix(q, sx()) {
        strip_sx(q.subrange(0, q.len() - 3))
    } else {
        q
    }
}

/// The queue that a job goes to: the duplex mode is chosen by the queue's name.
pub open spec fn rewritten_queue(q: Seq<char>, duplex: DuplexMode) -> Seq<char> {
    match duplex {
        DuplexMode::Simplex => if has_suffix(q, sx()) || has_suffix(q, nb()) {
            q
        } else {
            q + sx()
        },
        _ => strip_sx(q),
    }
}

pub open spec fn copies_flag(copies: u32) -> Seq<char> {
    if copies > 1 {
        " -#"@ + decimal(copies as nat)
    } else {
        Seq::empty()
    }
}

pub open spec fn orientation_flag(o: Orientation) -> Seq<char> {
    match o {
        Orientation::Landscape => " -o landscape"@,
        Orientation::Portrait => " -o portrait"@,
    }
}

pub open spec fn media_flag(p: PaperSize) -> Seq<char> {
    match p {
        PaperSize::A4 => " -o media=A4"@,
        PaperSize::A3 => " -o media=A3"@,
    }
}

/// The pages of `ps` that are at least 1, in their order.
pub open spec fn positive_pages(ps: Seq<u32>) -> Seq<u32>
    decreases ps.len(),
{
    if ps.len() == 0 {
        Seq::empty()
    } else if ps.last() >= 1 {
        positive_pages(ps.drop_last()).push(ps.last())
    } else {
        positive_pages(ps.drop_last())
    }
}

/// Page numbers joined by commas.
pub open spec fn page_list(ps: Seq<u32>) -> Seq<char>
    decreases ps.len(),
{
    if ps.len() == 0 {
        Seq::empty()
    } else if ps.len() == 1 {
        decimal(ps[0] as nat)
    } else {
        page_list(ps.drop_last()) + ","@ + decimal(ps.last() as nat)
    }
}

pub open spec fn page_range_flag(r: PageRange) -> Seq<char> {
    match r {
        PageRange::All => Seq::empty(),
        PageRange::Range { start, end } => if start >= 1 && end >= start {
            " -o page-ranges="@ + decimal(start as nat) + "-"@ + decimal(end as nat)
        } else {
            Seq::empty()
        },
        PageRange::Selection { pages } => if positive_pages(pages@).len() > 0 {
            " -o page-ranges="@ + page_list(positive_pages(pages@))
        } else {
            Seq::empty()
        },
    }
}

/// The command line that submits `path` to `queue` with `settings`.
pub open spec fn lpr_command(queue: Seq<char>, path: Seq<char>, settings: PrintSettings) -> Seq<char> {
    "lpr -P "@ + rewritten_queue(queue, settings.duplex) + copies_flag(settings.copies)
        + orientation_flag(settings.orientation) + media_flag(settings.paper_size)
        + page_range_flag(settings.page_range) + " "@ + path
}

proof fn lemma_suffix_literals()
    ensures
        "-sx"@ == sx(),
        "-nb"@ == nb(),
{
    reveal_strlit("-sx");
    reveal_strlit("-nb");
    assert("-sx"@ =~= sx());
    assert("-nb"@ =~= nb());
}

/// The queue name under which a job with `duplex` is submitted to `printer`.
pub fn rewrite_queue_name(printer: &str, duplex: DuplexMode) -> (r: String)
    ensures
        r@ == rewritten_queue(printer@, duplex),
{
    proof {
        lemma_suffix_literals();
    }
    match duplex {
        DuplexMode::Simplex => {
            if ends_with(printer, "-sx") || ends_with(printer, "-nb") {
                String::from_str(printer)
            } else {
                let mut q = String::from_str(printer);
                q.append("-sx");
                q
            }
        },
        _ => {
            let mut cur: &str = printer;
            while ends_with(cur, "-sx")
                invariant
                    strip_sx(cur@) == strip_sx(printer@),
                    "-sx"@ == sx(),
                decreases cur@.len(),
            {
                let n = cur.unicode_len();
                cur = cur.substring_char(0, n - 3);
            }
            String::from_str(cur)
        },
    }
}

/// The pages flag for a selection of pages.
fn append_page_selection(out: &mut String, pages: &Vec<u32>)
    ensures
        final(out)@ == old(out)@ + (if positive_pages(pages@).len() > 0 {
            " -o page-ranges="@ + page_list(positive_pages(pages@))
        } else {
            Seq::<char>::empty()
        }),
{
    let mut list = String::new();
    let mut any = false;
    let mut i: usize = 0;
    while i < pages.len()
        invariant
            i <= pages@.len(),
            any == (positive_pages(pages@.subrange(0, i as int)).len() > 0),
            list@ == page_list(positive_pages(pages@.subrange(0, i as int))),
        decreases pages@.len() - i,
    {
        let p = pages[i];
        let ghost kept = positive_pages(pages@.subrange(0, i as int));
        proof {
            assert(pages@.subrange(0, i + 1).drop_last() =~= pages@.subrange(0, i as int));
            assert(kept.push(p).drop_last() =~= kept);
        }
        if p >= 1 {
            if any {
                list.append(",");
            }
            let d = decimal_string(p as u64);
            list.append(d.as_str());
            any = true;
        }
        i = i + 1;
    }
    assert(pages@.subrange(0, pages@.len() as int) =~= pages@);
    if any {
        out.append(" -o page-ranges=");
        out.append(list.as_str());
    }
}

/// The command line that submits `remote_file_path` to the queue `printer` with `settings`.
pub fn submit_print_job_ssh(printer: &str, remote_file_path: &str, settings: &PrintSettings) -> (r: String)
    ensures
        r@ == lpr_command(printer@, remote_file_path@, *settings),
{
    let queue = rewrite_queue_name(printer, settings.duplex);
    let mut cmd = String::from_str("lpr -P ");
    cmd.append(queue.as_str());
    if settings.copies > 1 {
        cmd.append(" -#");
        let c = decimal_string(settings.copies as u64);
        cmd.append(c.as_str());
    }
    match settings.orientation {
        Orientation::Landscape => cmd.append(" -o landscape"),
        Orientation::Portrait => cmd.append(" -o portrait"),
    }
    match settings.paper_size {
        PaperSize::A4 => cmd.append(" -o media=A4"),
        PaperSize::A3 => cmd.append(" -o media=A3"),
    }
    match &settings.page_range {
        PageRange::All => {},
        PageRange::Range { start, end } => {
            if *start >= 1 && *end >= *start {
                cmd.append(" -o page-ranges=");
                let a = decimal_string(*start as u64);
                cmd.append(a.as_str());
                cmd.append("-");
                let b = decimal_string(*end as u64);
                cmd.append(b.as_str());
            }
        },
        PageRange::Selection { pages } => {
            append_page_selection(&mut cmd, pages);
        },
    }
    cmd.append(" ");
    cmd.append(remote_file_path);
    proof {
        let s = *settings;
        assert(cmd@ =~= lpr_command(printer@, remote_file_path@, s));
    }
    cmd
}

proof fn lemma_strip_sx_has_no_suffix(q: Seq<char>)
    ensures
        !has_suffix(strip_sx(q), sx()),
    decreases q.len(),
{
    if has_suffix(q, sx()) {
        lemma_strip_sx_has_no_suffix(q.subrange(0, q.len() - 3));
    }
}

/// A single-sided job on a queue whose name ends neither in `-sx` nor in `-nb` goes to the
/// queue of that name with `-sx` appended.
pub proof fn law_simplex_appends_sx(q: Seq<char>)
    requires
        !has_suffix(q, sx()),
        !has_suffix(q, nb()),
    ensures
        rewritten_queue(q, DuplexMode::Simplex) == q + sx(),
{
}

/// A double-sided job on a queue whose name ends in one `-sx` goes to the queue of that
/// name without it.
pub proof fn law_duplex_strips_sx(q: Seq<char>, duplex: DuplexMode)
    requires
        duplex != DuplexMode::Simplex,
        has_suffix(q, sx()),
        !has_suffix(q.subrange(0, q.len() - 3), sx()),
    ensures
        rewritten_queue(q, duplex) == q.subrange(0, q.len() - 3),
{
    let r = q.subrange(0, q.len() - 3);
    assert(strip_sx(r) == r);
}

/// Rewriting a queue name twice for the same duplex mode gives what rewriting it once gives.
pub proof fn law_rewrite_idempotent(q: Seq<char>, duplex: DuplexMode)
    ensures
        rewritten_queue(rewritten_queue(q, duplex), duplex) == rewritten_queue(q, duplex),
{
    match duplex {
        DuplexMode::Simplex => {
            if !(has_suffix(q, sx()) || has_suffix(q, nb())) {
                let r = q + sx();
                assert(r.subrange(r.len() - 3, r.len() as int) =~= sx());
            }
        },
        _ => {
            lemma_strip_sx_has_no_suffix(q);
        },
    }
}

/// A range whose start is 0 or past its end is left out of the command, as if every page
/// were asked for.
pub proof fn law_invalid_range_dropped(queue: Seq<char>, path: Seq<char>, settings: PrintSettings)
    requires
        settings.page_range matches PageRange::Range { start, end } && (start < 1 || end < start),
    ensures
        page_range_flag(settings.page_range) == Seq::<char>::empty(),
        lpr_command(queue, path, settings) == lpr_command(
            queue,
            path,
            PrintSettings {
                copies: settings.copies,
                duplex: settings.duplex,
                orientation: settings.orientation,
                paper_size: settings.paper_size,
                page_range: PageRange::All,
            },
        ),
{
}

/// One copy adds no copies flag.
pub proof fn law_single_copy_no_flag(queue: Seq<char>, path: Seq<char>, settings: PrintSettings)
    requires
        settings.copies == 1,
    ensures
        copies_flag(settings.copies) == Seq::<char>::empty(),
        lpr_command(queue, path, settings) == "lpr -P "@ + rewritten_queue(queue, settings.duplex)
            + orientation_flag(settings.orientation) + media_flag(settings.paper_size)
            + page_range_flag(settings.page_range) + " "@ + path,
{
    assert(lpr_command(queue, path, settings) =~= "lpr -P "@ + rewritten_queue(queue, settings.duplex)
        + orientation_flag(settings.orientation) + media_flag(settings.paper_size)
        + page_range_flag(settings.page_range) + " "@ + path);
}

/// Five copies add the one flag `-#5`, right after the queue.
pub proof fn law_five_copies_flag(queue: Seq<char>, path: Seq<char>, settings: PrintSettings)
    requires
        settings.copies == 5,
    ensures
        copies_flag(settings.copies) == " -#5"@,
        lpr_command(queue, path, settings) == "lpr -P "@ + rewritten_queue(queue, settings.duplex)
            + " -#5"@ + orientation_flag(settings.orientation) + media_flag(settings.paper_size)
            + page_range_flag(settings.page_range) + " "@ + path,
{
    reveal_strlit(" -#5");
    reveal_strlit(" -#");
    assert(decimal(5) =~= seq!['5']);
    assert(copies_flag(settings.copies) =~= " -#5"@);
}

} // verus!
