use counter_app::app::App;
use counter_app::screen::Area;
use ratatui::buffer::Buffer;
use ratatui::layout::Rect;
use ratatui::style::{Style, Stylize};

#[test]
fn render() {
    let app = App::default();
    let mut buf = Buffer::empty(Rect::new(0, 0, 50, 4));

    app.render(Area::new(0, 0, 50, 4), &mut buf);

    let mut expected = Buffer::with_lines(vec![
        "┏━━━━━━━━━━━━━ Counter App Tutorial ━━━━━━━━━━━━━┓",
        "┃                    Value: 0                    ┃",
        "┃                                                ┃",
        "┗━ Decrement <Left> Increment <Right> Quit <Q> ━━┛",
    ]);
    let title_style = Style::new().bold();
    let counter_style = Style::new().yellow();
    let key_style = Style::new().blue().bold();
    expected.set_style(Rect::new(14, 0, 22, 1), title_style);
    expected.set_style(Rect::new(28, 1, 1, 1), counter_style);
    expected.set_style(Rect::new(13, 3, 6, 1), key_style);
    expected.set_style(Rect::new(30, 3, 7, 1), key_style);
    expected.set_style(Rect::new(43, 3, 4, 1), key_style);

    assert_eq!(buf, expected);
}

#[test]
fn render_shows_the_counter() {
    let mut app = App::default();
    assert_eq!(app.increment_counter(), Ok(()));
    assert_eq!(app.increment_counter(), Ok(()));
    let mut buf = Buffer::empty(Rect::new(0, 0, 50, 4));

    app.render(Area::new(0, 0, 50, 4), &mut buf);

    let mut expected = Buffer::with_lines(vec![
        "┏━━━━━━━━━━━━━ Counter App Tutorial ━━━━━━━━━━━━━┓",
        "┃                    Value: 2                    ┃",
        "┃                                                ┃",
        "┗━ Decrement <Left> Increment <Right> Quit <Q> ━━┛",
    ]);
    expected.set_style(Rect::new(14, 0, 22, 1), Style::new().bold());
    expected.set_style(Rect::new(28, 1, 1, 1), Style::new().yellow());
    expected.set_style(Rect::new(13, 3, 6, 1), Style::new().blue().bold());
    expected.set_style(Rect::new(30, 3, 7, 1), Style::new().blue().bold());
    expected.set_style(Rect::new(43, 3, 4, 1), Style::new().blue().bold());
    assert_eq!(buf, expected);
}

#[test]
fn render_paints_only_the_area() {
    let app = App::default();
    let mut buf = Buffer::empty(Rect::new(0, 0, 52, 6));

    app.render(Area::new(1, 1, 50, 4), &mut buf);

    let mut expected = Buffer::with_lines(vec![
        "                                                    ",
        " ┏━━━━━━━━━━━━━ Counter App Tutorial ━━━━━━━━━━━━━┓ ",
        " ┃                    Value: 0                    ┃ ",
        " ┃                                                ┃ ",
        " ┗━ Decrement <Left> Increment <Right> Quit <Q> ━━┛ ",
        "                                                    ",
    ]);
    expected.set_style(Rect::new(15, 1, 22, 1), Style::new().bold());
    expected.set_style(Rect::new(29, 2, 1, 1), Style::new().yellow());
    expected.set_style(Rect::new(14, 4, 6, 1), Style::new().blue().bold());
    expected.set_style(Rect::new(31, 4, 7, 1), Style::new().blue().bold());
    expected.set_style(Rect::new(44, 4, 4, 1), Style::new().blue().bold());
    assert_eq!(buf, expected);
}

#[test]
fn render_keeps_every_cell_outside_the_area() {
    let app = App::default();
    let frame = Rect::new(3, 2, 20, 8);
    let mut buf = Buffer::empty(frame);
    for y in frame.top()..frame.bottom() {
        for x in frame.left()..frame.right() {
            buf.get_mut(x, y).set_symbol("x").set_style(Style::new().red().italic());
        }
    }
    let before = buf.clone();
    let area = Rect::new(5, 4, 14, 3);

    app.render(Area::new(area.x, area.y, area.width, area.height), &mut buf);

    assert_eq!(buf.area, before.area);
    assert_eq!(buf.content.len(), before.content.len());
    let mut written = 0;
    for y in frame.top()..frame.bottom() {
        for x in frame.left()..frame.right() {
            let inside = area.left() <= x && x < area.right() && area.top() <= y && y < area.bottom();
            if !inside {
                assert_eq!(buf.get(x, y), before.get(x, y), "at {x}, {y}");
            } else if buf.get(x, y) != before.get(x, y) {
                written += 1;
            }
        }
    }
    assert!(written > 0);
}

#[test]
fn render_in_a_buffer_away_from_the_origin() {
    let app = App::default();
    let mut buf = Buffer::empty(Rect::new(10, 5, 50, 4));
    app.render(Area::new(10, 5, 50, 4), &mut buf);

    let mut at_origin = Buffer::empty(Rect::new(0, 0, 50, 4));
    app.render(Area::new(0, 0, 50, 4), &mut at_origin);

    assert_eq!(buf.area, Rect::new(10, 5, 50, 4));
    assert_eq!(buf.content, at_origin.content);
}

#[test]
fn render_leaves_alone_a_buffer_that_cannot_hold_the_area() {
    let app = App::default();
    let blank = Buffer::empty(Rect::new(0, 0, 50, 4));

    let mut buf = blank.clone();
    app.render(Area::new(0, 0, 51, 4), &mut buf);
    assert_eq!(buf, blank);

    let mut buf = blank.clone();
    app.render(Area::new(0, 1, 50, 4), &mut buf);
    assert_eq!(buf, blank);

    let mut buf = blank.clone();
    app.render(Area::new(65535, 0, 50, 4), &mut buf);
    assert_eq!(buf, blank);

    let blank = Buffer::empty(Rect::new(5, 5, 10, 3));
    let mut buf = blank.clone();
    app.render(Area::new(4, 5, 10, 3), &mut buf);
    assert_eq!(buf, blank);
}

#[test]
fn render_leaves_alone_a_buffer_with_too_few_cells() {
    let app = App::default();
    let mut buf = Buffer::empty(Rect::new(0, 0, 50, 4));
    buf.content.truncate(100);
    let before = buf.clone();
    app.render(Area::new(0, 0, 50, 4), &mut buf);
    assert_eq!(buf, before);
}

#[test]
fn render_into_an_empty_area_changes_nothing() {
    let app = App::default();
    let blank = Buffer::empty(Rect::new(0, 0, 50, 4));
    let mut buf = blank.clone();
    app.render(Area::new(3, 2, 0, 0), &mut buf);
    assert_eq!(buf, blank);
}

#[test]
fn render_in_a_narrow_area_does_not_fail() {
    let app = App::default();
    for width in 0..=30u16 {
        for height in 0..=5u16 {
            let mut buf = Buffer::empty(Rect::new(0, 0, 30, 5));
            app.render(Area::new(0, 0, width, height), &mut buf);
            assert_eq!(buf.area, Rect::new(0, 0, 30, 5));
            assert_eq!(buf.content.len(), 150);
        }
    }
}

#[test]
fn render_twice_gives_the_same_cells() {
    let app = App::default();
    let mut first = Buffer::empty(Rect::new(0, 0, 40, 3));
    let mut second = first.clone();
    app.render(Area::new(0, 0, 40, 3), &mut first);
    app.render(Area::new(0, 0, 40, 3), &mut second);
    assert_eq!(first, second);
    assert_ne!(first, Buffer::empty(Rect::new(0, 0, 40, 3)));
}
