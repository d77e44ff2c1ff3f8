use hdiffpatch_rs::{
    diff_info_result, diff_output, patch, written_len, zeroed, DiffInfo, Error, PatchEvent,
    PatchStep,
};

#[test]
fn diff_output_keeps_what_was_written() {
    let out = vec![1u8, 2, 3, 4, 5];
    assert_eq!(diff_output(out.clone(), 3), Ok(vec![1u8, 2, 3]));
    assert_eq!(diff_output(out.clone(), 0), Ok(vec![]));
    assert_eq!(diff_output(out.clone(), 5), Ok(out.clone()));
    assert_eq!(diff_output(out.clone(), 9), Ok(out.clone()));
}

#[test]
fn diff_output_reports_errors() {
    assert_eq!(diff_output(vec![0u8; 4], -3), Err(Error::Capacity));
    assert_eq!(diff_output(vec![0u8; 4], -4), Err(Error::Invalid));
    assert_eq!(diff_output(vec![], -77), Err(Error::Code(-77)));
}

#[test]
fn written_len_reads_counts() {
    assert_eq!(written_len(0), Ok(0));
    assert_eq!(written_len(54), Ok(54));
    assert_eq!(written_len(-3), Err(Error::Capacity));
    assert_eq!(written_len(-7), Err(Error::Checksum));
}

#[test]
fn diff_info_result_keeps_sizes() {
    assert_eq!(
        diff_info_result(0, 32, 21),
        Ok(DiffInfo { new_size: 32, old_size: 21 })
    );
    assert_eq!(diff_info_result(-4, 32, 21), Err(Error::Invalid));
    assert_eq!(diff_info_result(-20, 0, 0), Err(Error::Code(-20)));
}

#[test]
fn zeroed_buffers() {
    assert_eq!(zeroed(0), Vec::<u8>::new());
    assert_eq!(zeroed(3), vec![0u8, 0, 0]);
}

fn apply_len(step: PatchStep) -> usize {
    match step {
        PatchStep::Apply { out } => {
            assert!(out.iter().all(|b| *b == 0));
            out.len()
        }
        _ => panic!("expected an Apply step"),
    }
}

fn done(step: PatchStep) -> Result<Vec<u8>, Error> {
    match step {
        PatchStep::Done(r) => r,
        _ => panic!("expected a Done step"),
    }
}

#[test]
fn patch_with_hint_applies_at_once() {
    assert_eq!(apply_len(patch(PatchEvent::Start { new_len_hint: Some(10) })), 10);
    assert_eq!(apply_len(patch(PatchEvent::Start { new_len_hint: Some(0) })), 0);
}

#[test]
fn patch_without_hint_reads_the_recorded_size() {
    assert!(matches!(
        patch(PatchEvent::Start { new_len_hint: None }),
        PatchStep::ReadInfo
    ));
    let info = DiffInfo { new_size: 32, old_size: 21 };
    assert_eq!(apply_len(patch(PatchEvent::InfoRead(Ok(info)))), 32);
}

#[test]
fn patch_stops_when_the_size_cannot_be_read() {
    assert_eq!(
        done(patch(PatchEvent::InfoRead(Err(Error::Invalid)))),
        Err(Error::Invalid)
    );
}

#[test]
fn patch_returns_the_whole_buffer_on_success() {
    let out = b"some baseline content plus extra".to_vec();
    assert_eq!(
        done(patch(PatchEvent::Applied { out: out.clone(), code: 0 })),
        Ok(out.clone())
    );
    // The byte count that the engine reports does not shorten the result.
    assert_eq!(
        done(patch(PatchEvent::Applied { out: out.clone(), code: 3 })),
        Ok(out)
    );
}

#[test]
fn patch_rejects_a_failed_application() {
    // The engine refuses data that is not a diff with the Invalid code.
    assert_eq!(
        done(patch(PatchEvent::Applied { out: vec![0u8; 10], code: -4 })),
        Err(Error::Invalid)
    );
    assert_eq!(
        done(patch(PatchEvent::Applied { out: vec![0u8; 10], code: -7 })),
        Err(Error::Checksum)
    );
}

fn run_patch(hint: Option<usize>, info: Result<DiffInfo, Error>, fill: u8, code: i64) -> Result<Vec<u8>, Error> {
    let mut step = patch(PatchEvent::Start { new_len_hint: hint });
    loop {
        step = match step {
            PatchStep::ReadInfo => patch(PatchEvent::InfoRead(info)),
            PatchStep::Apply { mut out } => {
                for b in out.iter_mut() {
                    *b = fill;
                }
                patch(PatchEvent::Applied { out, code })
            }
            PatchStep::Done(r) => return r,
        };
    }
}

#[test]
fn hinted_patch_produces_exactly_the_hinted_size() {
    let info = DiffInfo { new_size: 99, old_size: 1 };
    assert_eq!(run_patch(Some(6), Ok(info), 7, 6), Ok(vec![7u8; 6]));
    assert_eq!(run_patch(None, Ok(info), 1, 99), Ok(vec![1u8; 99]));
    assert_eq!(run_patch(None, Err(Error::Invalid), 1, 0), Err(Error::Invalid));
    assert_eq!(run_patch(Some(10), Ok(info), 0, -4), Err(Error::Invalid));
}
