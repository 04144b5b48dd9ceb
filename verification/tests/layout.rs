use scylla::layout::{dashboard_layout, fit, split, Axis, Constraint, Region};

fn rows() -> Vec<Constraint> {
    vec![Constraint::Length(3), Constraint::Min(10), Constraint::Length(7)]
}

fn assert_packed(bands: &[Region], axis: Axis, inner: Region) {
    let (lo, hi) = match axis {
        Axis::Vertical => (inner.y as u32, inner.y as u32 + inner.height as u32),
        Axis::Horizontal => (inner.x as u32, inner.x as u32 + inner.width as u32),
    };
    let mut cursor = lo;
    for b in bands {
        let (start, size) = match axis {
            Axis::Vertical => (b.y as u32, b.height as u32),
            Axis::Horizontal => (b.x as u32, b.width as u32),
        };
        assert!(start >= cursor);
        assert!(start + size <= hi);
        cursor = start + size;
        match axis {
            Axis::Vertical => assert_eq!((b.x, b.width), (inner.x, inner.width)),
            Axis::Horizontal => assert_eq!((b.y, b.height), (inner.y, inner.height)),
        }
    }
}

#[test]
fn inner_shrinks_by_the_margin_on_all_sides() {
    assert_eq!(Region::new(0, 0, 80, 24).inner(1), Region::new(1, 1, 78, 22));
    assert_eq!(Region::new(5, 7, 10, 4).inner(2), Region::new(7, 9, 6, 0));
    assert_eq!(Region::new(5, 7, 10, 4).inner(0), Region::new(5, 7, 10, 4));
}

#[test]
fn inner_of_an_area_too_small_is_empty_at_the_origin() {
    assert_eq!(Region::new(5, 7, 1, 10).inner(1), Region::new(0, 0, 0, 0));
    assert_eq!(Region::new(5, 7, 10, 1).inner(1), Region::new(0, 0, 0, 0));
    assert_eq!(Region::new(5, 7, 100, 100).inner(40000), Region::new(0, 0, 0, 0));
}

#[test]
fn inner_saturates_at_the_largest_coordinate() {
    assert_eq!(Region::new(65535, 65530, 10, 10).inner(3), Region::new(65535, 65533, 4, 4));
}

#[test]
fn edges_along_an_axis() {
    let r = Region::new(3, 4, 10, 20);
    assert_eq!(r.start(Axis::Horizontal), 3);
    assert_eq!(r.start(Axis::Vertical), 4);
    assert_eq!(r.extent(Axis::Horizontal), 10);
    assert_eq!(r.extent(Axis::Vertical), 20);
    assert_eq!(r.limit(Axis::Horizontal), 13);
    assert_eq!(r.limit(Axis::Vertical), 24);
    assert_eq!(Region::new(65530, 0, 10, 1).limit(Axis::Horizontal), 65535);
}

#[test]
fn three_rows_in_a_full_terminal() {
    let out = split(Region::new(0, 0, 80, 24), Axis::Vertical, 1, &rows());
    assert_eq!(
        out,
        vec![Region::new(1, 1, 78, 3), Region::new(1, 4, 78, 12), Region::new(1, 16, 78, 7)]
    );
}

#[test]
fn fixed_length_then_rest() {
    let cs = vec![Constraint::Length(5), Constraint::Min(0)];
    let out = split(Region::new(2, 2, 10, 10), Axis::Vertical, 0, &cs);
    assert_eq!(out, vec![Region::new(2, 2, 10, 5), Region::new(2, 7, 10, 5)]);
}

#[test]
fn two_columns() {
    let cs = vec![Constraint::Length(20), Constraint::Min(10)];
    let out = split(Region::new(1, 1, 78, 3), Axis::Horizontal, 0, &cs);
    assert_eq!(out, vec![Region::new(1, 1, 20, 3), Region::new(21, 1, 58, 3)]);
}

#[test]
fn rows_sum_to_at_most_the_height_inside_the_margin() {
    for height in 0u16..40 {
        for width in [0u16, 1, 2, 5, 80] {
            let area = Region::new(3, 2, width, height);
            let out = split(area, Axis::Vertical, 1, &rows());
            assert_eq!(out.len(), 3);
            let sum: u32 = out.iter().map(|r| r.height as u32).sum();
            assert!(sum <= area.inner(1).height as u32);
            if height >= 2 {
                assert!(sum <= height as u32 - 2);
            }
            assert_packed(&out, Axis::Vertical, area.inner(1));
        }
    }
}

#[test]
fn rows_fill_the_area_when_it_is_large_enough() {
    for height in 22u16..60 {
        let out = split(Region::new(0, 0, 80, height), Axis::Vertical, 1, &rows());
        assert_eq!(out[0].height, 3);
        assert_eq!(out[2].height, 7);
        assert_eq!(out[1].height, height - 2 - 10);
    }
}

#[test]
fn split_of_an_empty_area_gives_empty_bands() {
    let out = split(Region::new(0, 0, 0, 0), Axis::Vertical, 1, &rows());
    assert_eq!(out, vec![Region::new(0, 0, 0, 0); 3]);
}

#[test]
fn split_without_constraints_gives_no_band() {
    let out = split(Region::new(0, 0, 80, 24), Axis::Horizontal, 0, &Vec::new());
    assert_eq!(out, Vec::new());
}

#[test]
fn fit_keeps_packed_bands() {
    let inner = Region::new(1, 1, 78, 22);
    let raw = vec![Region::new(1, 1, 78, 3), Region::new(1, 4, 78, 12), Region::new(1, 16, 78, 7)];
    assert_eq!(fit(&raw, Axis::Vertical, inner), raw);
}

#[test]
fn fit_cuts_overlap_and_overflow() {
    let inner = Region::new(0, 0, 10, 6);
    let raw = vec![Region::new(0, 0, 10, 5), Region::new(0, 3, 10, 5)];
    assert_eq!(
        fit(&raw, Axis::Vertical, inner),
        vec![Region::new(0, 0, 10, 5), Region::new(0, 5, 10, 1)]
    );
}

#[test]
fn fit_moves_bands_into_the_area() {
    let inner = Region::new(10, 2, 20, 4);
    let raw = vec![Region::new(0, 9, 5, 1), Region::new(25, 0, 50, 7), Region::new(40, 40, 1, 1)];
    assert_eq!(
        fit(&raw, Axis::Horizontal, inner),
        vec![Region::new(10, 2, 0, 4), Region::new(25, 2, 5, 4), Region::new(30, 2, 0, 4)]
    );
}

#[test]
fn dashboard_in_a_full_terminal() {
    let d = dashboard_layout(Region::new(0, 0, 80, 24));
    assert_eq!(d.logo, Region::new(1, 1, 20, 3));
    assert_eq!(d.menu, Region::new(21, 1, 58, 3));
    assert_eq!(d.agent_list, Region::new(1, 4, 30, 12));
    assert_eq!(d.detail, Region::new(31, 4, 48, 12));
    assert_eq!(d.status, Region::new(1, 16, 78, 7));
}

#[test]
fn dashboard_with_room_is_pinned() {
    for (x, y) in [(0u16, 0u16), (3, 5), (100, 200)] {
        for w in [42u16, 43, 57, 80, 131, 300] {
            for h in [22u16, 23, 24, 37, 50, 120] {
                let d = dashboard_layout(Region::new(x, y, w, h));
                assert_eq!(d.logo, Region::new(x + 1, y + 1, 20, 3));
                assert_eq!(d.menu, Region::new(x + 21, y + 1, w - 22, 3));
                assert_eq!(d.agent_list, Region::new(x + 1, y + 4, 30, h - 12));
                assert_eq!(d.detail, Region::new(x + 31, y + 4, w - 32, h - 12));
                assert_eq!(d.status, Region::new(x + 1, y + h - 8, w - 2, 7));
            }
        }
    }
}

#[test]
fn dashboard_at_the_far_corner_is_pinned() {
    let d = dashboard_layout(Region::new(65535 - 42, 65535 - 22, 42, 22));
    assert_eq!(d.logo, Region::new(65494, 65514, 20, 3));
    assert_eq!(d.menu, Region::new(65514, 65514, 20, 3));
    assert_eq!(d.agent_list, Region::new(65494, 65517, 30, 10));
    assert_eq!(d.detail, Region::new(65524, 65517, 10, 10));
    assert_eq!(d.status, Region::new(65494, 65527, 40, 7));
}

#[test]
fn rows_keep_their_heights_in_a_narrow_terminal() {
    for w in [2u16, 5, 20, 31, 41] {
        let d = dashboard_layout(Region::new(0, 0, w, 30));
        assert_eq!((d.logo.y, d.logo.height), (1, 3));
        assert_eq!((d.agent_list.y, d.agent_list.height), (4, 18));
        assert_eq!((d.status.y, d.status.height), (22, 7));
    }
}

#[test]
fn columns_keep_their_widths_in_a_low_terminal() {
    for h in [2u16, 3, 10, 21] {
        let d = dashboard_layout(Region::new(0, 0, 60, h));
        assert_eq!((d.logo.x, d.logo.width), (1, 20));
        assert_eq!((d.menu.x, d.menu.width), (21, 38));
        assert_eq!((d.agent_list.x, d.agent_list.width), (1, 30));
        assert_eq!((d.detail.x, d.detail.width), (31, 28));
    }
}

fn asked(c: &Constraint) -> u32 {
    match c {
        Constraint::Length(n) => *n as u32,
        Constraint::Min(n) => *n as u32,
    }
}

#[test]
fn with_room_every_band_has_what_it_asked() {
    let sets: Vec<Vec<Constraint>> = vec![
        vec![Constraint::Length(3), Constraint::Min(10), Constraint::Length(7)],
        vec![Constraint::Length(20), Constraint::Min(10)],
        vec![Constraint::Min(10), Constraint::Min(50)],
        vec![Constraint::Min(0), Constraint::Length(4), Constraint::Min(7), Constraint::Min(7)],
        vec![Constraint::Length(5), Constraint::Length(6)],
        vec![Constraint::Length(0), Constraint::Min(0), Constraint::Length(0)],
        vec![Constraint::Min(1)],
        vec![Constraint::Length(9)],
    ];
    for cs in &sets {
        let total: u32 = cs.iter().map(asked).sum();
        let flexible = cs.iter().any(|c| matches!(c, Constraint::Min(_)));
        for axis in [Axis::Horizontal, Axis::Vertical] {
            for margin in [0u16, 1, 3] {
                for extra in [0u16, 1, 2, 3, 7, 10, 33, 100, 1001] {
                    let side = total as u16 + extra + 2 * margin;
                    let area = Region::new(11, 13, side, side);
                    let inner = area.inner(margin);
                    let out = split(area, axis, margin, cs);
                    assert_packed(&out, axis, inner);
                    for (band, c) in out.iter().zip(cs.iter()) {
                        match c {
                            Constraint::Length(n) => assert_eq!(band.extent(axis), *n),
                            Constraint::Min(n) => assert!(band.extent(axis) >= *n),
                        }
                    }
                    if flexible {
                        let sum: u32 = out.iter().map(|b| b.extent(axis) as u32).sum();
                        assert_eq!(sum, inner.extent(axis) as u32);
                    }
                }
            }
        }
    }
}

#[test]
fn with_room_at_the_largest_coordinates() {
    let cs = vec![Constraint::Length(300), Constraint::Min(32767), Constraint::Length(7)];
    let area = Region::new(0, 0, 65535, 65535);
    let out = split(area, Axis::Vertical, 0, &cs);
    assert_eq!(
        out,
        vec![
            Region::new(0, 0, 65535, 300),
            Region::new(0, 300, 65535, 65228),
            Region::new(0, 65528, 65535, 7)
        ]
    );
}

#[test]
fn dashboard_in_a_small_terminal_stays_inside_it() {
    for (w, h) in [(0u16, 0u16), (1, 1), (2, 2), (10, 5), (25, 12), (40, 19), (200, 3)] {
        let area = Region::new(0, 0, w, h);
        let d = dashboard_layout(area);
        for r in [d.logo, d.menu, d.agent_list, d.detail, d.status] {
            assert!(r.x as u32 + r.width as u32 <= w as u32);
            assert!(r.y as u32 + r.height as u32 <= h as u32);
        }
        let sum = d.logo.height as u32 + d.agent_list.height as u32 + d.status.height as u32;
        assert!(sum <= area.inner(1).height as u32);
    }
}

fn solved(area: Region, axis: Axis, margin: u16, cs: &[Constraint]) -> Vec<Region> {
    let direction = match axis {
        Axis::Horizontal => ratatui::layout::Direction::Horizontal,
        Axis::Vertical => ratatui::layout::Direction::Vertical,
    };
    let wanted: Vec<ratatui::layout::Constraint> = cs
        .iter()
        .map(|c| match c {
            Constraint::Length(n) => ratatui::layout::Constraint::Length(*n),
            Constraint::Min(n) => ratatui::layout::Constraint::Min(*n),
        })
        .collect();
    let rect = ratatui::layout::Rect { x: area.x, y: area.y, width: area.width, height: area.height };
    ratatui::layout::Layout::default()
        .direction(direction)
        .margin(margin)
        .constraints(wanted)
        .split(rect)
        .iter()
        .map(|r| Region::new(r.x, r.y, r.width, r.height))
        .collect()
}

#[test]
fn fitting_leaves_the_solved_bands_as_they_are() {
    let columns = vec![Constraint::Length(30), Constraint::Min(10)];
    for height in [0u16, 1, 2, 3, 5, 12, 19, 20, 21, 22, 24, 50, 300] {
        for width in [0u16, 1, 2, 9, 10, 29, 30, 31, 41, 80, 500] {
            let area = Region::new(4, 9, width, height);
            assert_eq!(split(area, Axis::Vertical, 1, &rows()), solved(area, Axis::Vertical, 1, &rows()));
            assert_eq!(
                split(area, Axis::Horizontal, 0, &columns),
                solved(area, Axis::Horizontal, 0, &columns)
            );
        }
    }
}
