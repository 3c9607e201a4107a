use halfblocks::app::{App, KeyInput, LoopState};
use halfblocks::color::Rgb;
use halfblocks::compose::{compose, compose_rows, CellPaint};
use halfblocks::cycle::IoStream;
use halfblocks::fps::Fps;
use halfblocks::layout::{split_header, split_title, Rect};
use halfblocks::noise::generate;
use halfblocks::numtext::{format_fps, parse_u64, u128_to_dec};
use halfblocks::profiler;
use halfblocks::rawout::{print1, print2};

fn grey(level: u8) -> Rgb {
    Rgb { r: level, g: level, b: level }
}

fn uniform_grid(color: Rgb, width: usize, height: usize) -> Vec<Vec<Rgb>> {
    (0..2 * height).map(|_| vec![color; width]).collect()
}

#[test]
fn noise_grid_dimensions_and_range() {
    let mut rng = rand::thread_rng();
    for &(w, h) in &[(1u16, 1u16), (5, 3), (8, 1), (3, 7)] {
        let g = generate(w, h, &mut rng);
        assert_eq!(g.len(), 2 * h as usize);
        for row in &g {
            assert_eq!(row.len(), w as usize);
            for c in row {
                // greyscale, and the level is an 8-bit value, i.e. a
                // brightness within the full valid range
                assert_eq!(c.r, c.g);
                assert_eq!(c.g, c.b);
            }
        }
    }
}

#[test]
fn noise_levels_follow_row_formula() {
    let mut rng = rand::thread_rng();
    let (w, h) = (6u16, 4u16);
    let total = 2 * h as u64;
    let g = generate(w, h, &mut rng);
    for (y, row) in g.iter().enumerate() {
        let rem = total - y as u64;
        let base = (rem * rem * 1000) / (total * total) as u64;
        let clamp = |v: i64| -> i64 { v.max(0).min(1000) };
        let lo = clamp(base as i64 - 100) * 255 / 1000;
        let hi = clamp(base as i64 + 99) * 255 / 1000;
        for c in row {
            let level = c.r as i64;
            assert!(level >= lo && level <= hi, "row {} level {} not in [{}, {}]", y, level, lo, hi);
        }
    }
}

#[test]
fn setup_colors_same_size_is_a_no_op() {
    let mut app = App::new(IoStream::Stdout, 0);
    app.setup_colors(4, 3);
    assert_eq!(app.last_width, 4);
    assert_eq!(app.last_height, 3);
    let before = app.colors.clone();
    app.setup_colors(4, 3);
    assert_eq!(app.colors, before);
    app.setup_colors(4, 2);
    assert_eq!(app.colors.len(), 4);
}

#[test]
fn uniform_grid_composites_uniformly() {
    let c = grey(77);
    let colors = uniform_grid(c, 5, 4);
    for frame in [0u64, 1, 3, 17, 1000] {
        let cells = compose(&colors, frame, 5, 4);
        assert_eq!(cells.len(), 4);
        for row in &cells {
            assert_eq!(row.len(), 5);
            for cell in row {
                assert_eq!(cell.fg, c);
                assert_eq!(cell.bg, c);
            }
        }
    }
}

fn distinguished_position(cells: &[Vec<CellPaint>], marker: Rgb) -> usize {
    let hits: Vec<usize> = cells[0]
        .iter()
        .enumerate()
        .filter(|(_, cell)| cell.fg == marker)
        .map(|(x, _)| x)
        .collect();
    assert_eq!(hits.len(), 1);
    hits[0]
}

#[test]
fn animation_shifts_one_cell_per_frame() {
    let plain = grey(10);
    let marker = grey(200);
    let (w, h) = (5usize, 2usize);
    let marked_column = 3usize;
    let mut colors = uniform_grid(plain, w, h);
    for row in &mut colors {
        row[marked_column] = marker;
    }
    let mut last = distinguished_position(&compose(&colors, 0, w as u16, h as u16), marker);
    assert_eq!(last, marked_column);
    for frame in 1u64..=7 {
        let pos = distinguished_position(&compose(&colors, frame, w as u16, h as u16), marker);
        assert_eq!(pos, (last + w - 1) % w, "frame {}", frame);
        last = pos;
    }
}

#[test]
fn vertical_variant_rotates_rows() {
    let (w, h) = (3usize, 4usize);
    let mut colors = Vec::new();
    for y in 0..2 * h {
        colors.push(vec![grey(y as u8); w]);
    }
    let cells = compose_rows(&colors, 0, w as u16, h as u16);
    for y in 0..h {
        let src = h - y - 1;
        for x in 0..w {
            assert_eq!(cells[y][x].fg, grey(2 * src as u8));
            assert_eq!(cells[y][x].bg, grey(2 * src as u8 + 1));
        }
    }
    let shifted = compose_rows(&colors, 1, w as u16, h as u16);
    for y in 0..h {
        let src = (h - y - 1 + 1) % h;
        assert_eq!(shifted[y][0].fg, grey(2 * src as u8));
    }
}

#[test]
fn fps_unavailable_after_two_ticks_within_a_second() {
    let mut fps = Fps::new(0);
    assert_eq!(fps.current_reading(), None);
    fps.tick(100);
    fps.tick(200);
    assert_eq!(fps.current_reading(), None);
}

#[test]
fn fps_reads_ticks_over_elapsed_after_the_window() {
    let mut fps = Fps::new(0);
    fps.tick(100);
    fps.tick(200);
    fps.tick(1100);
    // three frames over 1.1 seconds: 2727 milli-frames-per-second
    assert_eq!(fps.current_reading(), Some(2727));
    // the window restarts: the counter and clock were reset
    fps.tick(1200);
    assert_eq!(fps.current_reading(), Some(2727));
}

#[test]
fn fps_many_ticks_within_a_second_stay_unavailable() {
    let mut fps = Fps::new(0);
    for t in 0..10u64 {
        fps.tick(t * 100);
    }
    assert_eq!(fps.current_reading(), None);
    fps.tick(1001);
    assert_eq!(fps.current_reading(), Some(11 * 1_000_000 / 1001));
}

#[test]
fn cycle_advances_through_all_six_and_returns() {
    let start = IoStream::default();
    assert!(matches!(start, IoStream::Stdout));
    let mut seen = vec![start];
    let mut s = start;
    for _ in 0..6 {
        s = s.advance();
        seen.push(s);
    }
    assert!(matches!(seen[6], IoStream::Stdout));
    for i in 0..6 {
        for j in (i + 1)..6 {
            assert_ne!(seen[i], seen[j], "positions {} and {} repeat", i, j);
        }
    }
}

#[test]
fn cycle_labels_name_stream_and_buffering() {
    assert_eq!(IoStream::Stdout.label(), "stdout (unbuffered)");
    assert_eq!(IoStream::LineBufferedStdout.label(), "stdout (line buffered)");
    assert_eq!(IoStream::BlockBufferedStdout.label(), "stdout (block buffered)");
    assert_eq!(IoStream::Stderr.label(), "stderr (unbuffered)");
    assert_eq!(IoStream::LineBufferedStderr.label(), "stderr (line buffered)");
    assert_eq!(IoStream::BlockBufferedStderr.label(), "stderr (block buffered)");
}

#[test]
fn quit_terminates_after_noops_plus_one() {
    for n in [0usize, 1, 4, 9] {
        let mut app = App::new(IoStream::Stdout, 0);
        let mut inputs: Vec<Option<KeyInput>> = vec![None; n];
        inputs.push(Some(KeyInput { code: 'q', press: true }));
        let steps = app.run_events(&inputs, 0);
        assert_eq!(steps, n + 1);
        assert_eq!(app.status(), LoopState::QuitRequested);
        assert!(app.should_quit);
        assert!(!app.switch_stream);
        assert_eq!(app.frame_count, (n + 1) as u64);
    }
}

#[test]
fn switch_terminates_on_first_iteration() {
    let mut app = App::new(IoStream::Stdout, 0);
    let inputs = vec![Some(KeyInput { code: ' ', press: true })];
    let steps = app.run_events(&inputs, 0);
    assert_eq!(steps, 1);
    assert_eq!(app.status(), LoopState::SwitchRequested);
    assert!(!app.should_quit);
}

#[test]
fn releases_and_other_keys_do_not_decide() {
    let mut app = App::new(IoStream::Stdout, 0);
    let inputs = vec![
        Some(KeyInput { code: 'q', press: false }),
        Some(KeyInput { code: 'x', press: true }),
        Some(KeyInput { code: ' ', press: false }),
    ];
    let steps = app.run_events(&inputs, 0);
    assert_eq!(steps, 3);
    assert_eq!(app.status(), LoopState::Running);
}

#[test]
fn frame_model_layout_and_texts() {
    let mut app = App::new(IoStream::LineBufferedStderr, 0);
    app.setup_colors(12, 5);
    let f = app.build_frame(12, 5);
    assert_eq!(f.header, Rect { x: 0, y: 0, width: 12, height: 1 });
    assert_eq!(f.field, Rect { x: 0, y: 1, width: 12, height: 4 });
    assert_eq!(f.title_area, Rect { x: 0, y: 0, width: 4, height: 1 });
    assert_eq!(f.fps_area, Rect { x: 4, y: 0, width: 8, height: 1 });
    assert_eq!(f.title, "stderr (line buffered)");
    assert!(f.fps_text.is_none());
    assert_eq!(f.cells.len(), 4);
    assert_eq!(f.cells[0].len(), 12);
}

#[test]
fn layout_splits_degrade_on_tiny_surfaces() {
    let (header, field) = split_header(Rect { x: 0, y: 0, width: 3, height: 0 });
    assert_eq!(header.height, 0);
    assert_eq!(field.height, 0);
    let (title, fps_area) = split_title(Rect { x: 0, y: 0, width: 5, height: 1 });
    assert_eq!(title.width, 0);
    assert_eq!(fps_area.width, 5);
}

#[test]
fn decimal_rendering() {
    assert_eq!(u128_to_dec(0), b"0".to_vec());
    assert_eq!(u128_to_dec(7), b"7".to_vec());
    assert_eq!(u128_to_dec(12345678901234567890), b"12345678901234567890".to_vec());
    assert_eq!(format_fps(2500), b"2.5 fps".to_vec());
    assert_eq!(format_fps(12345), b"12.3 fps".to_vec());
    assert_eq!(format_fps(999), b"0.9 fps".to_vec());
    assert_eq!(format_fps(0), b"0.0 fps".to_vec());
}

#[test]
fn decimal_parsing() {
    assert_eq!(parse_u64(b"0"), Some(0));
    assert_eq!(parse_u64(b"123"), Some(123));
    assert_eq!(parse_u64(b"+42"), Some(42));
    assert_eq!(parse_u64(b"18446744073709551615"), Some(u64::MAX));
    assert_eq!(parse_u64(b"18446744073709551616"), None);
    assert_eq!(parse_u64(b""), None);
    assert_eq!(parse_u64(b"+"), None);
    assert_eq!(parse_u64(b"12a"), None);
    assert_eq!(parse_u64(b"-1"), None);
    assert_eq!(parse_u64(b" 5"), None);
}

#[test]
fn profiler_stream_choice_is_case_insensitive() {
    assert_eq!(profiler::IoStream::from(b"stdout"), profiler::IoStream::Stdout);
    assert_eq!(profiler::IoStream::from(b"STDOUT"), profiler::IoStream::Stdout);
    assert_eq!(profiler::IoStream::from(b"stderr"), profiler::IoStream::Stderr);
    assert_eq!(profiler::IoStream::from(b"StdErr"), profiler::IoStream::Stderr);
    assert_eq!(profiler::IoStream::from(b"STDERR"), profiler::IoStream::Stderr);
    assert_eq!(profiler::IoStream::from(b"elsewhere"), profiler::IoStream::Stdout);
    assert_eq!(profiler::IoStream::from(b""), profiler::IoStream::Stdout);
    assert_eq!(profiler::IoStream::default(), profiler::IoStream::Stdout);
}

#[test]
fn profiler_run_length() {
    assert_eq!(profiler::exit_after_secs(None), 5);
    assert_eq!(profiler::exit_after_secs(Some(b"7")), 7);
    assert_eq!(profiler::exit_after_secs(Some(b"abc")), 5);
    assert_eq!(profiler::exit_after_secs(Some(b"")), 5);
    assert!(profiler::exit_due(0, 5000, 5));
    assert!(!profiler::exit_due(0, 4999, 5));
    assert!(profiler::exit_due(1000, 6000, 5));
}

#[test]
fn raw_demo_lines() {
    assert_eq!(print1(), "test1\n");
    assert_eq!(print2(), "test2\n");
}
