use feofetch::config::{AsciiConfig, ColorConfig, Config, FetchType, PackagesConfig, WmConfig};
use feofetch::layout::{plan, saturating_add};

fn base_conf() -> Config {
    Config {
        data: vec![FetchType::Os],
        use_icons: false,
        label_color: ColorConfig::Cyan,
        align_spaces: 2,
        offset: (0, 0),
        padding_lines: 1,
        ascii: AsciiConfig {
            print: true,
            ascii_path: None,
            color: ColorConfig::Normal,
            align_spaces: 1,
        },
        packages: PackagesConfig { print_package_manager_names: false },
        wm: WmConfig { use_wmctrl: false },
    }
}

#[test]
fn scenario_a_geometry() {
    // ascii block of 3 lines (max width 6, padding 1), 5 data lines,
    // label padding 2, longest label "packages" (8 chars)
    let conf = base_conf();
    let p = plan(3, 6, 5, 8, &conf);
    assert_eq!(p.total_rows, 5);
    assert_eq!(p.ascii_row_offset, 1);
    assert_eq!(p.data_row_offset, 0);
    assert_eq!(p.ascii_column_width, 7);
    assert_eq!(p.label_column_width, 10);
}

#[test]
fn scenario_b_no_ascii() {
    let conf = base_conf();
    let p = plan(0, 0, 3, 6, &conf);
    assert_eq!(p.ascii_column_width, 0);
    assert_eq!(p.total_rows, 3);
    assert_eq!(p.data_row_offset, 0);
    // the centering rule still shifts the (empty) shorter column;
    // with no art lines the offset is invisible in the output
    assert_eq!(p.ascii_row_offset, 1);
}

#[test]
fn scenario_d_icons_fix_label_column() {
    let mut conf = base_conf();
    conf.use_icons = true;
    for label_w in [0, 3, 8, 40] {
        let p = plan(2, 4, 2, label_w, &conf);
        assert_eq!(p.label_column_width, 1 + 2);
    }
}

#[test]
fn scenario_e_label_column_saturates() {
    let conf = base_conf();
    let p = plan(0, 0, 1, usize::MAX, &conf);
    assert_eq!(p.label_column_width, usize::MAX);
    let p = plan(1, usize::MAX - 1, 1, 2, &conf);
    assert_eq!(p.ascii_column_width, usize::MAX);
}

#[test]
fn saturating_add_clamps() {
    assert_eq!(saturating_add(3, 4), 7);
    assert_eq!(saturating_add(usize::MAX, 1), usize::MAX);
    assert_eq!(saturating_add(usize::MAX - 1, 1), usize::MAX);
    assert_eq!(saturating_add(0, usize::MAX), usize::MAX);
}

#[test]
fn row_count_is_max() {
    let conf = base_conf();
    for (a, d) in [(0, 0), (3, 5), (5, 3), (4, 4), (7, 0), (0, 7)] {
        let p = plan(a, 1, d, 1, &conf);
        assert_eq!(p.total_rows, a.max(d));
    }
}

#[test]
fn centering_shifts_only_the_shorter_column() {
    let conf = base_conf();
    for (a, d) in [(3usize, 5usize), (5, 3), (4, 4), (8, 1), (1, 8), (6, 5)] {
        let p = plan(a, 1, d, 1, &conf);
        // the taller column never shifts
        assert!(p.data_row_offset == 0 || p.ascii_row_offset == 0);
        if a > d {
            assert_eq!(p.data_row_offset, (a - d) / 2);
            assert_eq!(p.ascii_row_offset, 0);
        } else if d > a {
            assert_eq!(p.ascii_row_offset, (d - a) / 2);
            assert_eq!(p.data_row_offset, 0);
        } else {
            assert_eq!(p.data_row_offset, 0);
            assert_eq!(p.ascii_row_offset, 0);
        }
    }
}

#[test]
fn column_widths_dominate_padding() {
    let conf = base_conf();
    for (a, aw, lw) in [(0usize, 0usize, 0usize), (2, 5, 3), (1, 0, 9)] {
        let p = plan(a, aw, 2, lw, &conf);
        assert!(p.label_column_width >= conf.align_spaces);
        if a > 0 {
            assert!(p.ascii_column_width >= conf.ascii.align_spaces);
        } else {
            assert_eq!(p.ascii_column_width, 0);
        }
    }
}
