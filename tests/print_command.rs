use ssh_print::print_command::{rewrite_queue_name, submit_print_job_ssh};
use ssh_print::types::{DuplexMode, Orientation, PageRange, PaperSize, PrintSettings};

fn settings(copies: u32, duplex: DuplexMode, page_range: PageRange) -> PrintSettings {
    PrintSettings {
        copies,
        duplex,
        orientation: Orientation::Portrait,
        paper_size: PaperSize::A4,
        page_range,
    }
}

#[test]
fn scenario_duplex_selection_command() {
    let s = PrintSettings {
        copies: 2,
        duplex: DuplexMode::DuplexLongEdge,
        orientation: Orientation::Landscape,
        paper_size: PaperSize::A3,
        page_range: PageRange::Selection { pages: vec![2, 4, 6] },
    };
    assert_eq!(rewrite_queue_name("pstsb-sx", s.duplex), "pstsb");
    assert_eq!(
        submit_print_job_ssh("pstsb-sx", "/tmp/doc.pdf", &s),
        "lpr -P pstsb -#2 -o landscape -o media=A3 -o page-ranges=2,4,6 /tmp/doc.pdf"
    );
}

#[test]
fn simplex_appends_sx() {
    assert_eq!(rewrite_queue_name("psts", DuplexMode::Simplex), "psts-sx");
    assert_eq!(rewrite_queue_name("", DuplexMode::Simplex), "-sx");
}

#[test]
fn simplex_keeps_sx_and_nb() {
    assert_eq!(rewrite_queue_name("psts-sx", DuplexMode::Simplex), "psts-sx");
    assert_eq!(rewrite_queue_name("psts-nb", DuplexMode::Simplex), "psts-nb");
}

#[test]
fn duplex_strips_sx() {
    assert_eq!(rewrite_queue_name("psts-sx", DuplexMode::DuplexLongEdge), "psts");
    assert_eq!(rewrite_queue_name("psts-sx", DuplexMode::DuplexShortEdge), "psts");
    assert_eq!(rewrite_queue_name("psts", DuplexMode::DuplexShortEdge), "psts");
    assert_eq!(rewrite_queue_name("psts-nb", DuplexMode::DuplexLongEdge), "psts-nb");
}

#[test]
fn duplex_strips_repeated_sx() {
    assert_eq!(rewrite_queue_name("a-sx-sx", DuplexMode::DuplexLongEdge), "a");
}

#[test]
fn rewrite_is_idempotent() {
    for q in ["psts", "psts-sx", "psts-nb", "a-sx-sx", "x"] {
        for d in [DuplexMode::Simplex, DuplexMode::DuplexLongEdge, DuplexMode::DuplexShortEdge] {
            let once = rewrite_queue_name(q, d);
            let twice = rewrite_queue_name(&once, d);
            assert_eq!(once, twice);
        }
    }
}

#[test]
fn inverted_range_is_dropped() {
    let s = settings(1, DuplexMode::Simplex, PageRange::Range { start: 3, end: 1 });
    assert_eq!(submit_print_job_ssh("psts", "f.pdf", &s), "lpr -P psts-sx -o portrait -o media=A4 f.pdf");
}

#[test]
fn range_from_zero_is_dropped() {
    let s = settings(1, DuplexMode::Simplex, PageRange::Range { start: 0, end: 4 });
    assert_eq!(submit_print_job_ssh("psts", "f.pdf", &s), "lpr -P psts-sx -o portrait -o media=A4 f.pdf");
}

#[test]
fn valid_range_is_emitted() {
    let s = settings(1, DuplexMode::DuplexLongEdge, PageRange::Range { start: 2, end: 15 });
    assert_eq!(
        submit_print_job_ssh("psts", "f.pdf", &s),
        "lpr -P psts -o portrait -o media=A4 -o page-ranges=2-15 f.pdf"
    );
    let one = settings(1, DuplexMode::DuplexLongEdge, PageRange::Range { start: 7, end: 7 });
    assert_eq!(
        submit_print_job_ssh("psts", "f.pdf", &one),
        "lpr -P psts -o portrait -o media=A4 -o page-ranges=7-7 f.pdf"
    );
}

#[test]
fn single_copy_has_no_flag() {
    let s = settings(1, DuplexMode::DuplexLongEdge, PageRange::All);
    let cmd = submit_print_job_ssh("psts", "f.pdf", &s);
    assert!(!cmd.contains("-#"));
    assert_eq!(cmd, "lpr -P psts -o portrait -o media=A4 f.pdf");
}

#[test]
fn five_copies_flag_once() {
    let s = settings(5, DuplexMode::DuplexLongEdge, PageRange::All);
    let cmd = submit_print_job_ssh("psts", "f.pdf", &s);
    assert_eq!(cmd.matches("-#5").count(), 1);
    assert_eq!(cmd, "lpr -P psts -#5 -o portrait -o media=A4 f.pdf");
}

#[test]
fn many_copies_use_all_digits() {
    let s = settings(120, DuplexMode::DuplexLongEdge, PageRange::All);
    assert_eq!(submit_print_job_ssh("q", "f", &s), "lpr -P q -#120 -o portrait -o media=A4 f");
}

#[test]
fn selection_drops_page_zero_and_keeps_order() {
    let s = settings(1, DuplexMode::DuplexLongEdge, PageRange::Selection { pages: vec![0, 9, 1, 9] });
    assert_eq!(
        submit_print_job_ssh("q", "f", &s),
        "lpr -P q -o portrait -o media=A4 -o page-ranges=9,1,9 f"
    );
}

#[test]
fn selection_of_nothing_is_dropped() {
    let empty = settings(1, DuplexMode::DuplexLongEdge, PageRange::Selection { pages: vec![] });
    assert_eq!(submit_print_job_ssh("q", "f", &empty), "lpr -P q -o portrait -o media=A4 f");
    let zeros = settings(1, DuplexMode::DuplexLongEdge, PageRange::Selection { pages: vec![0, 0] });
    assert_eq!(submit_print_job_ssh("q", "f", &zeros), "lpr -P q -o portrait -o media=A4 f");
}

#[test]
fn landscape_a3_flags() {
    let s = PrintSettings {
        copies: 1,
        duplex: DuplexMode::Simplex,
        orientation: Orientation::Landscape,
        paper_size: PaperSize::A3,
        page_range: PageRange::All,
    };
    assert_eq!(submit_print_job_ssh("psts-nb", "a b.pdf", &s), "lpr -P psts-nb -o landscape -o media=A3 a b.pdf");
}
