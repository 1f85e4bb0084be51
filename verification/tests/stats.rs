use bsdiff_rust::bsdiff_rust::BsdiffRust;
use bsdiff_rust::error::{FileRole, PatchError};
use bsdiff_rust::file::{FileEntry, FileState};
use bsdiff_rust::format::FormatDefect;
use bsdiff_rust::options::DiffOptions;
use bsdiff_rust::stats::{Percent, PerformanceStats, Stopwatch};
use bsdiff_rust::utils::{get_compression_ratio, get_file_size};

fn as_float(ratio: Percent) -> f64 {
    ratio.numerator as f64 / ratio.denominator as f64
}

#[test]
fn test_diff_with_stats() {
    let old_content = b"Hello World! This is the old version.";
    let new_content = b"Hello World! This is the new version with more data.";

    let old_file = FileEntry::readable("old.bin", old_content.to_vec());
    let new_file = FileEntry::readable("new.bin", new_content.to_vec());
    let mut patch_file = FileEntry::missing("patch.bin");

    let stats = BsdiffRust::diff_with_stats(&old_file, &new_file, &mut patch_file).unwrap();

    assert!(stats.elapsed_ms >= 0);
    assert_eq!(stats.old_size, old_content.len() as u64);
    assert_eq!(stats.new_size, new_content.len() as u64);
    assert!(stats.patch_size > 0);
    assert!(as_float(stats.compression_ratio) >= 0.0);
}

#[test]
fn diff_with_stats_measures_the_written_patch() {
    let old_file = FileEntry::readable("old.bin", vec![7u8; 38]);
    let new_file = FileEntry::readable("new.bin", vec![9u8; 54]);
    let mut patch_file = FileEntry::missing("patch.bin");

    let stats = BsdiffRust::diff_with_stats(&old_file, &new_file, &mut patch_file).unwrap();
    let written = get_file_size(&patch_file).unwrap();
    assert_eq!(stats.patch_size, written);
    assert_eq!(stats.old_size, 38);
    assert_eq!(stats.new_size, 54);
    assert_eq!(
        stats.compression_ratio,
        Percent { numerator: written as u128 * 100, denominator: 92 }
    );
    assert_eq!(as_float(stats.compression_ratio), written as f64 * 100.0 / 92.0);

    let ratio = get_compression_ratio(&old_file, &new_file, &patch_file).unwrap();
    assert_eq!(ratio.ratio, stats.compression_ratio);
}

#[test]
fn empty_inputs_have_zero_ratio() {
    let old_file = FileEntry::readable("old.bin", Vec::new());
    let new_file = FileEntry::readable("new.bin", Vec::new());
    let mut patch_file = FileEntry::missing("patch.bin");

    let stats = BsdiffRust::diff_with_stats(&old_file, &new_file, &mut patch_file).unwrap();
    assert_eq!(stats.old_size, 0);
    assert_eq!(stats.new_size, 0);
    assert!(stats.patch_size >= 32);
    assert_eq!(stats.compression_ratio, Percent { numerator: 0, denominator: 1 });
    assert_eq!(as_float(stats.compression_ratio), 0.0);

    let mut generated_file = FileEntry::missing("generated.bin");
    let stats = BsdiffRust::patch_with_stats(&old_file, &mut generated_file, &patch_file).unwrap();
    assert_eq!(generated_file, FileEntry::readable("generated.bin", Vec::new()));
    assert_eq!((stats.old_size, stats.new_size), (0, 0));
    assert_eq!(as_float(stats.compression_ratio), 0.0);
}

#[test]
fn diff_with_options_and_stats_takes_the_options() {
    let old_file = FileEntry::readable("old.bin", b"Test data for parallel option".to_vec());
    let new_file =
        FileEntry::readable("new.bin", b"Test data for parallel option modified".to_vec());
    let options = DiffOptions { compression_level: 9, enable_parallel: false };

    let mut plain = FileEntry::missing("plain.bin");
    BsdiffRust::diff_with_options(&old_file, &new_file, &mut plain, &options).unwrap();
    let mut timed = FileEntry::missing("timed.bin");
    let stats =
        BsdiffRust::diff_with_options_and_stats(&old_file, &new_file, &mut timed, &options)
            .unwrap();

    assert_eq!(plain.state, timed.state);
    assert_eq!(stats.old_size, 29);
    assert_eq!(stats.new_size, 38);
    assert_eq!(Ok(stats.patch_size), get_file_size(&timed));
}

#[test]
fn patch_with_stats_measures_the_written_file() {
    let old_content = b"Hello World! This is the old version.".to_vec();
    let new_content = b"Hello World! This is the new version with more data.".to_vec();
    let old_file = FileEntry::readable("old.bin", old_content.clone());
    let new_file = FileEntry::readable("new.bin", new_content.clone());
    let mut patch_file = FileEntry::missing("patch.bin");
    BsdiffRust::diff(&old_file, &new_file, &mut patch_file).unwrap();

    let mut generated_file = FileEntry::readable("generated.bin", vec![0u8; 1000]);
    let stats = BsdiffRust::patch_with_stats(&old_file, &mut generated_file, &patch_file).unwrap();
    assert_eq!(generated_file, FileEntry::readable("generated.bin", new_content.clone()));
    assert_eq!(stats.old_size, old_content.len() as u64);
    assert_eq!(stats.new_size, new_content.len() as u64);
    assert_eq!(Ok(stats.patch_size), get_file_size(&patch_file));
    assert_eq!(
        stats.compression_ratio,
        Percent {
            numerator: stats.patch_size as u128 * 100,
            denominator: (old_content.len() + new_content.len()) as u128,
        }
    );
}

#[test]
fn stats_pass_the_error_on() {
    let good = FileEntry::readable("good.bin", b"good".to_vec());
    let mut patch_file = FileEntry::readable("patch.bin", b"stale".to_vec());
    assert_eq!(
        BsdiffRust::diff_with_stats(&FileEntry::missing("gone"), &good, &mut patch_file),
        Err(PatchError::NotFound { role: FileRole::Old, path: "gone".into() })
    );
    assert_eq!(
        BsdiffRust::diff_with_options_and_stats(
            &good,
            &FileEntry::missing("gone"),
            &mut patch_file,
            &DiffOptions::default()
        ),
        Err(PatchError::NotFound { role: FileRole::New, path: "gone".into() })
    );
    assert_eq!(patch_file, FileEntry::readable("patch.bin", b"stale".to_vec()));

    let mut new_file = FileEntry::readable("new.bin", b"keep".to_vec());
    assert_eq!(
        BsdiffRust::patch_with_stats(&good, &mut new_file, &patch_file),
        Err(PatchError::FormatError { defect: FormatDefect::TooShort })
    );
    assert_eq!(new_file, FileEntry::readable("new.bin", b"keep".to_vec()));
}

#[test]
fn compression_ratio_follows_the_sizes() {
    let old_file = FileEntry::readable("old.bin", vec![1u8; 38]);
    let new_file = FileEntry::readable("new.bin", vec![2u8; 54]);
    for patch_len in [0usize, 1, 23, 92, 184, 1000] {
        let patch_file = FileEntry::readable("patch.bin", vec![3u8; patch_len]);
        let found = get_compression_ratio(&old_file, &new_file, &patch_file).unwrap();
        assert_eq!(found.old_size, 38);
        assert_eq!(found.new_size, 54);
        assert_eq!(found.patch_size, patch_len as u64);
        assert_eq!(found.ratio, Percent { numerator: patch_len as u128 * 100, denominator: 92 });
        assert_eq!(as_float(found.ratio), patch_len as f64 * 100.0 / 92.0);
    }
    let patch_file = FileEntry::readable("patch.bin", vec![3u8; 23]);
    let found = get_compression_ratio(&old_file, &new_file, &patch_file).unwrap();
    assert_eq!(as_float(found.ratio), 25.0);
}

#[test]
fn compression_ratio_of_empty_files_is_zero() {
    let empty = FileEntry::readable("empty.bin", Vec::new());
    let patch_file = FileEntry::readable("patch.bin", vec![3u8; 40]);
    let found = get_compression_ratio(&empty, &empty, &patch_file).unwrap();
    assert_eq!(found.ratio, Percent { numerator: 0, denominator: 1 });
    assert_eq!(as_float(found.ratio), 0.0);
    assert_eq!(found.patch_size, 40);
}

#[test]
fn compression_ratio_needs_all_three_files() {
    let good = FileEntry::readable("good.bin", vec![1u8; 3]);
    let gone = |path: &str| FileEntry::missing(path);
    let not_found =
        |path: &str| Err(PatchError::NotFound { role: FileRole::Any, path: path.into() });
    assert_eq!(get_compression_ratio(&gone("a"), &gone("b"), &gone("c")), not_found("a"));
    assert_eq!(get_compression_ratio(&good, &gone("b"), &gone("c")), not_found("b"));
    assert_eq!(get_compression_ratio(&good, &good, &gone("c")), not_found("c"));
    let dir = FileEntry { path: "dir".into(), state: FileState::NotAFile };
    assert_eq!(
        get_compression_ratio(&good, &dir, &gone("c")),
        Err(PatchError::NotAFile { path: "dir".into() })
    );
}

#[test]
fn percent_is_exact_for_the_largest_sizes() {
    assert_eq!(
        Percent::of(u64::MAX, u64::MAX, u64::MAX),
        Percent { numerator: u64::MAX as u128 * 100, denominator: u64::MAX as u128 * 2 }
    );
    assert_eq!(Percent::of(0, 0, u64::MAX), Percent { numerator: 0, denominator: 1 });
    assert_eq!(Percent::of(1, 0, 0), Percent { numerator: 0, denominator: 1 });
    assert_eq!(Percent::of(0, 3, 1), Percent { numerator: 100, denominator: 3 });
}

#[test]
fn stats_keep_the_low_bits_of_the_time() {
    let stats = PerformanceStats::new(1500, 10, 30, 20);
    assert_eq!(stats.elapsed_ms, 1500);
    assert_eq!((stats.old_size, stats.new_size, stats.patch_size), (10, 30, 20));
    assert_eq!(stats.compression_ratio, Percent { numerator: 2000, denominator: 40 });
    assert_eq!(PerformanceStats::new(u64::MAX as u128, 0, 0, 0).elapsed_ms, u64::MAX);
    assert_eq!(PerformanceStats::new(u64::MAX as u128 + 1, 0, 0, 0).elapsed_ms, 0);
    assert_eq!(PerformanceStats::new((5u128 << 64) + 42, 0, 0, 0).elapsed_ms, 42);
}

#[test]
fn measure_reads_the_sizes_of_the_entries() {
    let old_file = FileEntry::readable("old.bin", vec![0u8; 10]);
    let new_file = FileEntry::readable("new.bin", vec![0u8; 30]);
    let patch_file = FileEntry::readable("patch.bin", vec![0u8; 20]);
    assert_eq!(
        BsdiffRust::measure(12, &old_file, &new_file, &patch_file),
        Ok(PerformanceStats::new(12, 10, 30, 20))
    );
    assert_eq!(
        BsdiffRust::measure(12, &old_file, &FileEntry::missing("gone"), &patch_file),
        Err(PatchError::NotFound { role: FileRole::Any, path: "gone".into() })
    );
}

#[test]
fn stopwatch_does_not_run_backwards() {
    let watch = Stopwatch::start();
    let first = watch.elapsed_millis();
    let second = watch.elapsed_millis();
    assert!(first <= second);
}
