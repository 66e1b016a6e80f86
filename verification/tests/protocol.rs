use avbridge::context::input;
use avbridge::context::input_with;
use avbridge::context::open;
use avbridge::context::open_with;
use avbridge::context::output;
use avbridge::context::output_as;
use avbridge::context::output_as_with;
use avbridge::context::output_with;
use avbridge::error::NATIVE_EOF;
use avbridge::Context;
use avbridge::Dictionary;
use avbridge::Error;
use avbridge::ErrorKind;
use avbridge::Format;
use avbridge::InputEvents;
use avbridge::InputFormat;
use avbridge::IoBinding;
use avbridge::OpenEvents;
use avbridge::OutputEvents;
use avbridge::OutputFormat;
use avbridge::SampleFormat;

#[test]
fn error_kinds_by_code() {
    assert_eq!(Error::from_status(-2).kind(), ErrorKind::NotFound);
    assert_eq!(Error::from_status(-13).kind(), ErrorKind::PermissionDenied);
    assert_eq!(Error::from_status(-11).kind(), ErrorKind::TryAgain);
    assert_eq!(Error::from_status(-12).kind(), ErrorKind::OutOfMemory);
    assert_eq!(Error::from_status(-22).kind(), ErrorKind::InvalidArgument);
    assert_eq!(Error::from_status(NATIVE_EOF).kind(), ErrorKind::EndOfFile);
    assert_eq!(Error::from_status(-999).kind(), ErrorKind::Unknown);
    assert_eq!(Error::Encoding.kind(), ErrorKind::Encoding);
}

#[test]
fn error_kinds_follow_the_platform_errno_values() {
    // the classification must agree with the platform's own errno values
    assert_eq!(Error::from_status(-libc::ENOENT).kind(), ErrorKind::NotFound);
    assert_eq!(Error::from_status(-libc::EACCES).kind(), ErrorKind::PermissionDenied);
    assert_eq!(Error::from_status(-libc::EAGAIN).kind(), ErrorKind::TryAgain);
    assert_eq!(Error::from_status(-libc::ENOMEM).kind(), ErrorKind::OutOfMemory);
    assert_eq!(Error::from_status(-libc::EINVAL).kind(), ErrorKind::InvalidArgument);
}

#[test]
fn error_keeps_the_native_status() {
    assert_eq!(Error::from_status(-2).status(), Some(-2));
    assert_eq!(Error::from_status(NATIVE_EOF).status(), Some(NATIVE_EOF));
    assert_eq!(Error::Encoding.status(), None);
}

fn sample_options() -> Dictionary {
    let mut d = Dictionary::new();
    d.push(String::from("user_agent"), String::from("avbridge"));
    d.push(String::from("timeout"), String::from("5"));
    d
}

fn assert_sample_options(d: &Dictionary) {
    assert_eq!(d.len(), 2);
    let first = d.pair(0);
    assert_eq!(first.0, "user_agent");
    assert_eq!(first.1, "avbridge");
    let second = d.pair(1);
    assert_eq!(second.0, "timeout");
    assert_eq!(second.1, "5");
}

#[test]
fn dictionary_disown_reown_roundtrip() {
    let d = sample_options();
    // the native call between disown and own makes no modification here
    let lent = d.disown();
    let reclaimed = Dictionary::own(lent);
    assert_sample_options(&reclaimed);
}

#[test]
fn dictionary_get_finds_the_first_occurrence() {
    let d = Dictionary::from_pairs(vec![
        (String::from("k"), String::from("first")),
        (String::from("other"), String::from("x")),
        (String::from("k"), String::from("second")),
    ]);
    assert_eq!(d.get(&String::from("k")).unwrap(), "first");
    assert_eq!(d.get(&String::from("other")).unwrap(), "x");
    assert!(d.get(&String::from("missing")).is_none());
}

#[test]
fn dictionary_from_pairs_keeps_order() {
    let pairs = vec![
        (String::from("a"), String::from("1")),
        (String::from("b"), String::from("2")),
        (String::from("a"), String::from("3")),
    ];
    let d = Dictionary::from_pairs(pairs);
    assert_eq!(d.len(), 3);
    assert_eq!(d.pair(2).1, "3");
}

#[test]
fn input_success_reports_probed_stream_count() {
    let ev = InputEvents { open_status: 0, probe_status: 0, streams: 3 };
    let ctx = input(&ev).unwrap();
    assert_eq!(ctx.streams(), 3);
    assert_eq!(ctx.io_binding(), IoBinding::Path);
}

#[test]
fn probe_accepts_any_non_negative_status() {
    // the probe step's convention differs from the open step's exactly-zero
    let ev = InputEvents { open_status: 0, probe_status: 7, streams: 2 };
    let ctx = input(&ev).unwrap();
    assert_eq!(ctx.streams(), 2);
}

#[test]
fn open_step_accepts_only_exactly_zero() {
    let ev = InputEvents { open_status: 7, probe_status: 0, streams: 2 };
    let err = input(&ev).unwrap_err();
    assert_eq!(err, Error::Native(7));
}

#[test]
fn bad_path_open_yields_error_and_no_context() {
    let ev = InputEvents { open_status: -2, probe_status: 0, streams: 0 };
    let res = input(&ev);
    assert!(res.is_err());
    assert_eq!(res.unwrap_err().kind(), ErrorKind::NotFound);
}

#[test]
fn probe_failure_tears_the_open_down() {
    let ev = InputEvents { open_status: 0, probe_status: -22, streams: 0 };
    let err = input(&ev).unwrap_err();
    assert_eq!(err, Error::Native(-22));
}

#[test]
fn input_with_reclaims_options_on_success_and_error() {
    let ok_ev = InputEvents { open_status: 0, probe_status: 0, streams: 1 };
    let (res, opts) = input_with(sample_options(), &ok_ev);
    assert!(res.is_ok());
    assert_sample_options(&opts);

    let bad_ev = InputEvents { open_status: -13, probe_status: 0, streams: 0 };
    let (res, opts) = input_with(sample_options(), &bad_ev);
    assert_eq!(res.unwrap_err(), Error::Native(-13));
    assert_sample_options(&opts);
}

#[test]
fn output_checks_allocation_then_sink() {
    let ok = OutputEvents { alloc_status: 0, io_status: 0 };
    let ctx = output(&ok).unwrap();
    assert_eq!(ctx.io_binding(), IoBinding::Path);

    let bad_alloc = OutputEvents { alloc_status: -12, io_status: 0 };
    assert_eq!(output(&bad_alloc).unwrap_err(), Error::Native(-12));

    let bad_sink = OutputEvents { alloc_status: 0, io_status: -13 };
    assert_eq!(output(&bad_sink).unwrap_err(), Error::Native(-13));
}

#[test]
fn output_as_selects_muxer_by_name() {
    let fmt = OutputFormat::new(String::from("wav"));
    let ok = OutputEvents { alloc_status: 0, io_status: 0 };
    let ctx = output_as(&fmt, &ok).unwrap();
    assert_eq!(ctx.io_binding(), IoBinding::Path);
    assert_eq!(ctx.muxer_name().unwrap(), "wav");
}

#[test]
fn output_by_path_names_no_muxer() {
    let ok = OutputEvents { alloc_status: 0, io_status: 0 };
    let ctx = output(&ok).unwrap();
    assert!(ctx.muxer_name().is_none());
}

#[test]
fn output_with_and_output_as_with_reclaim_options() {
    let bad = OutputEvents { alloc_status: -22, io_status: 0 };
    let (res, opts) = output_with(sample_options(), &bad);
    assert_eq!(res.unwrap_err(), Error::Native(-22));
    assert_sample_options(&opts);

    let fmt = OutputFormat::new(String::from("wav"));
    let ok = OutputEvents { alloc_status: 0, io_status: 0 };
    let (res, opts) = output_as_with(&fmt, sample_options(), &ok);
    assert!(res.is_ok());
    assert_sample_options(&opts);
}

#[test]
fn open_dispatches_on_the_format_variant() {
    let fmt = Format::Input(InputFormat::new(String::from("matroska")));
    let ev = OpenEvents::Input(InputEvents { open_status: 0, probe_status: 0, streams: 5 });
    match open(&fmt, &ev).unwrap() {
        Context::Input(ctx) => assert_eq!(ctx.streams(), 5),
        Context::Output(_) => panic!("input open produced an output context"),
    }

    let fmt = Format::Output(OutputFormat::new(String::from("wav")));
    let ev = OpenEvents::Output(OutputEvents { alloc_status: 0, io_status: 0 });
    match open(&fmt, &ev).unwrap() {
        Context::Output(_) => {}
        Context::Input(_) => panic!("output open produced an input context"),
    }
}

#[test]
fn open_with_reclaims_options_on_the_error_path() {
    let fmt = Format::Input(InputFormat::new(String::from("matroska")));
    let ev = OpenEvents::Input(InputEvents { open_status: -2, probe_status: 0, streams: 0 });
    let (res, opts) = open_with(&fmt, sample_options(), &ev);
    assert_eq!(res.unwrap_err(), Error::Native(-2));
    assert_sample_options(&opts);
}

#[test]
fn sample_format_native_code_roundtrip() {
    let all = [
        SampleFormat::Unset,
        SampleFormat::U8,
        SampleFormat::S16,
        SampleFormat::S32,
        SampleFormat::FLT,
        SampleFormat::DBL,
        SampleFormat::U8P,
        SampleFormat::S16P,
        SampleFormat::S32P,
        SampleFormat::FLTP,
        SampleFormat::DBLP,
    ];
    for f in all {
        assert_eq!(SampleFormat::from_native(f.into_native()), f);
    }
    assert_eq!(SampleFormat::from_native(-1).into_native(), -1);
    assert_eq!(SampleFormat::from_native(6), SampleFormat::S16P);
    // the "number of formats" marker and anything past the table are unset
    assert_eq!(SampleFormat::from_native(10), SampleFormat::Unset);
    assert_eq!(SampleFormat::from_native(-5), SampleFormat::Unset);
}

#[test]
fn sample_format_tables() {
    assert!(SampleFormat::FLTP.is_planar());
    assert!(!SampleFormat::FLT.is_planar());
    assert_eq!(SampleFormat::FLTP.packed(), SampleFormat::FLT);
    assert_eq!(SampleFormat::S16.planar(), SampleFormat::S16P);
    assert_eq!(SampleFormat::Unset.packed(), SampleFormat::Unset);
    assert_eq!(SampleFormat::U8.bytes(), 1);
    assert_eq!(SampleFormat::S16P.bytes(), 2);
    assert_eq!(SampleFormat::S32.bytes(), 4);
    assert_eq!(SampleFormat::DBLP.bytes(), 8);
    assert_eq!(SampleFormat::Unset.bytes(), 0);
    assert_eq!(SampleFormat::S16.name(), Some("s16"));
    assert_eq!(SampleFormat::DBLP.name(), Some("dblp"));
    assert_eq!(SampleFormat::Unset.name(), None);
}
