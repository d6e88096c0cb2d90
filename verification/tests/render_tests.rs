use feofetch::ascii::AsciiBlock;
use feofetch::config::{AsciiConfig, ColorConfig, Config, FetchType, PackagesConfig, WmConfig};
use feofetch::fetch::FetchData;
use feofetch::layout::RenderPlan;
use feofetch::render::{render, render_banner, row_text, Seg};

fn conf(use_icons: bool, offset: (usize, usize)) -> Config {
    Config {
        data: vec![FetchType::Os],
        use_icons,
        label_color: ColorConfig::Cyan,
        align_spaces: 2,
        offset,
        padding_lines: 1,
        ascii: AsciiConfig {
            print: true,
            ascii_path: None,
            color: ColorConfig::Blue,
            align_spaces: 1,
        },
        packages: PackagesConfig { print_package_manager_names: false },
        wm: WmConfig { use_wmctrl: false },
    }
}

fn line(label: &str, icon: &str, text: &str) -> FetchData {
    FetchData { label: label.to_string(), icon: icon.to_string(), text: text.to_string() }
}

fn five_lines() -> Vec<FetchData> {
    vec![
        line("os", "@", "arch"),
        line("version", "@", "6.1.0"),
        line("uptime", "@", "2h 5m"),
        line("packages", "@", "1234"),
        line("wm", "@", "i3"),
    ]
}

#[test]
fn ascii_block_from_text() {
    let b = AsciiBlock::from_text("####\n##\n######\n\n  \n");
    assert_eq!(b.line_count(), 3);
    assert_eq!(b.max_width(), 6);
    let b = AsciiBlock::from_text("");
    assert_eq!(b.line_count(), 0);
    assert_eq!(b.max_width(), 0);
}

#[test]
fn scenario_a_render() {
    let c = conf(false, (0, 0));
    let art = "####\n##\n######";
    let out = render_banner(Some(art), &five_lines(), &c);
    assert_eq!(out.plan.total_rows, 5);
    assert_eq!(out.plan.ascii_row_offset, 1);
    assert_eq!(out.plan.data_row_offset, 0);
    assert_eq!(out.plan.ascii_column_width, 7);
    assert_eq!(out.plan.label_column_width, 10);
    assert_eq!(out.rows.len(), 5);
    let texts: Vec<String> = out.rows.iter().map(row_text).collect();
    assert_eq!(texts[0], "       os        arch");
    assert_eq!(texts[1], "####   version   6.1.0");
    assert_eq!(texts[2], "##     uptime    2h 5m");
    assert_eq!(texts[3], "###### packages  1234");
    assert_eq!(texts[4], "       wm        i3");
}

#[test]
fn alignment_column_is_constant() {
    // every row's label starts at offset.x + ascii_column_width,
    // with or without an art line on the row
    let c = conf(false, (3, 0));
    let out = render_banner(Some("##\n#"), &five_lines(), &c);
    let start = c.offset.0 + out.plan.ascii_column_width as usize;
    for row in &out.rows {
        let mut col = 0usize;
        let mut label_col = None;
        for seg in row {
            if matches!(seg, Seg::Label(_)) {
                label_col = Some(col);
            }
            col += seg.text().chars().count();
        }
        assert_eq!(label_col, Some(start));
    }
}

#[test]
fn no_styling_leakage() {
    // the margin, the filler and the value text are plain; styled
    // segments appear only as the art (2nd) and label (3rd) segment
    let c = conf(false, (2, 0));
    let data = five_lines();
    let out = render_banner(Some("##\n#"), &data, &c);
    for (i, row) in out.rows.iter().enumerate() {
        assert!(matches!(row[0], Seg::Plain(_)));
        for (j, seg) in row.iter().enumerate() {
            match seg {
                Seg::Ascii(_) => assert_eq!(j, 1),
                Seg::Label(_) => assert_eq!(j, 2),
                Seg::Plain(_) => {}
            }
        }
        // the value is the last segment of a data row, unstyled
        match row.last().unwrap() {
            Seg::Plain(t) => assert_eq!(t, &data[i].text),
            _ => panic!("value segment must be unstyled"),
        }
    }
}

#[test]
fn scenario_c_ascii_only() {
    let c = conf(false, (0, 0));
    let data: Vec<FetchData> = vec![];
    let out = render_banner(Some("#\n##\n###\n####"), &data, &c);
    assert_eq!(out.plan.total_rows, 4);
    assert_eq!(out.rows.len(), 4);
    for row in &out.rows {
        // margin + art column only: nothing after the art
        assert_eq!(row.len(), 2);
        assert!(matches!(row[0], Seg::Plain(_)));
        assert!(matches!(row[1], Seg::Ascii(_)));
    }
    assert_eq!(out.blank_lines_after, c.padding_lines);
    assert_eq!(row_text(&out.rows[0]), "#    ");
    assert_eq!(row_text(&out.rows[3]), "#### ");
}

#[test]
fn scenario_b_render_no_ascii() {
    let c = conf(false, (0, 0));
    let data = vec![line("os", "@", "arch"), line("wm", "@", "i3"), line("shell", "@", "zsh")];
    let out = render_banner(None, &data, &c);
    assert_eq!(out.plan.total_rows, 3);
    assert_eq!(out.plan.ascii_column_width, 0);
    assert_eq!(out.plan.data_row_offset, 0);
    assert_eq!(row_text(&out.rows[0]), "os     arch");
    assert_eq!(row_text(&out.rows[1]), "wm     i3");
    assert_eq!(row_text(&out.rows[2]), "shell  zsh");
}

#[test]
fn icons_replace_labels() {
    let mut c = conf(true, (0, 0));
    c.align_spaces = 1;
    let data = vec![line("uptime", "*", "2h")];
    let out = render_banner(None, &data, &c);
    assert_eq!(out.plan.label_column_width, 2);
    assert_eq!(row_text(&out.rows[0]), "* 2h");
}

#[test]
fn offsets_and_padding_carried() {
    let c = conf(false, (1, 2));
    let out = render_banner(Some("##\n#"), &vec![line("os", "@", "arch"), line("wm", "@", "i3")], &c);
    assert_eq!(out.blank_lines_before, 2);
    assert_eq!(out.blank_lines_after, 1);
    assert_eq!(row_text(&out.rows[0]), " ## os  arch");
    assert_eq!(row_text(&out.rows[1]), " #  wm  i3");
}

#[test]
fn render_executes_a_given_plan() {
    let c = conf(false, (0, 0));
    let ascii = AsciiBlock { lines: vec!["##".to_string()] };
    let p = RenderPlan {
        total_rows: 2,
        data_row_offset: 1,
        ascii_row_offset: 0,
        label_column_width: 4,
        ascii_column_width: 3,
    };
    let rows = render(&p, &ascii, &vec![line("os", "@", "x")], &c);
    assert_eq!(rows.len(), 2);
    assert_eq!(row_text(&rows[0]), "## ");
    assert_eq!(row_text(&rows[1]), "   os  x");
}

#[test]
fn data_column_centered_when_ascii_taller() {
    let c = conf(false, (0, 0));
    let out = render_banner(
        Some("#\n#\n#\n#\n#"),
        &vec![line("os", "@", "arch")],
        &c,
    );
    // (5 - 1) / 2 = 2: the single data line lands on row 2
    assert_eq!(out.plan.data_row_offset, 2);
    assert_eq!(out.rows[0].len(), 2);
    assert_eq!(out.rows[1].len(), 2);
    assert_eq!(out.rows[2].len(), 4);
    assert_eq!(out.rows[3].len(), 2);
    assert_eq!(row_text(&out.rows[2]), "# os  arch");
}
