use word_search::common::{
    get_font_and_size, init_fonts, pos_to_vec2, FontSize, Point, Reposition, CENTER, FONT_COUNT,
    SPACING, TOP,
};
use word_search::drawing::{Color, Draw};
use word_search::entities::{justify_x, Justify, Text};
use word_search::state::State;

fn fonts() -> word_search::common::Fonts<i32> {
    let loaded: Result<_, ()> = init_fonts(b"font bytes", |data: &[u8], size: i32| {
        assert_eq!(data, b"font bytes");
        Ok(size * 10)
    });
    loaded.unwrap()
}

fn screen() -> Point {
    Point { x: 600, y: 800 }
}

fn width_ten_per_char(_font: &i32, text: &String, _size: i32) -> i32 {
    text.chars().count() as i32 * 10
}

#[test]
fn justify_center_and_right() {
    assert_eq!(justify_x(300, 100, Justify::Center), 250);
    assert_eq!(justify_x(300, 101, Justify::Center), 250);
    assert_eq!(justify_x(300, 100, Justify::Right), 200);
    assert_eq!(justify_x(300, 100, Justify::Left), 300);
    assert_eq!(justify_x(10, 100, Justify::Right), -90);
}

#[test]
fn font_sizes_are_fixed_per_class() {
    let fonts = fonts();
    assert_eq!(FONT_COUNT, 3);
    for _ in 0..2 {
        assert_eq!(get_font_and_size(&fonts, FontSize::Small), (&300, 30));
        assert_eq!(get_font_and_size(&fonts, FontSize::Medium), (&450, 45));
        assert_eq!(get_font_and_size(&fonts, FontSize::Large), (&600, 60));
    }
}

#[test]
fn font_loading_failure_is_returned() {
    let mut seen = Vec::new();
    let r: Result<word_search::common::Fonts<i32>, i32> =
        init_fonts(b"x", |_: &[u8], size: i32| {
            seen.push(size);
            if size == 45 {
                Err(size)
            } else {
                Ok(size)
            }
        });
    assert!(matches!(r, Err(45)));
    assert_eq!(seen, vec![30, 45]);
}

#[test]
fn fractional_positions_scale_to_the_screen() {
    assert_eq!(pos_to_vec2((0, 0), screen()), Point { x: 0, y: 0 });
    assert_eq!(pos_to_vec2((255, 255), screen()), Point { x: 600, y: 800 });
    assert_eq!(pos_to_vec2((CENTER, 5), screen()), Point { x: 298, y: 15 });
}

#[test]
fn reposition_moves_u8_coordinates() {
    assert_eq!(TOP.down(5), 5);
    assert_eq!(CENTER.up(50), 77);
    assert_eq!(10u8.left(10), 0);
    assert_eq!(250u8.right(5), 255);
}

#[test]
fn draw_records_runs_in_order() {
    let fonts = fonts();
    let black = Color::black();
    let draw = Draw::new(&fonts, screen())
        .small("a", Point { x: 1, y: 2 }, black)
        .medium("b", Point { x: 3, y: 4 }, Color::white())
        .large("c", Point { x: 5, y: 6 }, black);
    assert_eq!(draw.dimensions(), screen());
    let runs = draw.into_commands();
    assert_eq!(runs.len(), 3);
    assert_eq!((*runs[0].font, runs[0].text.as_str(), runs[0].font_size), (300, "a", 30));
    assert_eq!((*runs[1].font, runs[1].text.as_str(), runs[1].font_size), (450, "b", 45));
    assert_eq!((*runs[2].font, runs[2].text.as_str(), runs[2].font_size), (600, "c", 60));
    assert_eq!(runs[1].position, Point { x: 3, y: 4 });
    assert_eq!(runs[1].color, Color { r: 255, g: 255, b: 255, a: 255 });
    assert!(runs.iter().all(|r| r.spacing == SPACING && SPACING == 2));
}

#[test]
fn centered_text_starts_half_its_width_left_of_anchor() {
    let fonts = fonts();
    let text = Text::medium("abcd", CENTER, 0, Justify::Center);
    let runs = text.draw(Draw::new(&fonts, screen()), &width_ten_per_char).into_commands();
    assert_eq!(runs[0].position, Point { x: 298 - 20, y: 0 });
    assert_eq!(runs[0].font_size, 45);
    assert_eq!(runs[0].color, Color::black());
}

#[test]
fn right_justified_text_ends_at_anchor() {
    let fonts = fonts();
    let text = Text::large("abc", 255, 255, Justify::Right);
    let runs = text.draw(Draw::new(&fonts, screen()), &width_ten_per_char).into_commands();
    assert_eq!(runs[0].position, Point { x: 570, y: 800 });
    let left = Text::small("abc", 0, 0, Justify::Left);
    let runs = left.draw(Draw::new(&fonts, screen()), &width_ten_per_char).into_commands();
    assert_eq!(runs[0].position, Point { x: 0, y: 0 });
}

#[test]
fn negative_measure_counts_as_zero_width() {
    let fonts = fonts();
    let text = Text::small("abc", 255, 0, Justify::Right);
    let runs = text.draw(Draw::new(&fonts, screen()), &|_: &i32, _: &String, _: i32| -7).into_commands();
    assert_eq!(runs[0].position, Point { x: 600, y: 0 });
}

#[test]
fn init_screen_draws_title_and_prompt() {
    let fonts = fonts();
    let runs = State::Init.draw(Draw::new(&fonts, screen()), &width_ten_per_char).into_commands();
    assert_eq!(runs.len(), 2);
    assert_eq!(runs[0].text, "Word Search");
    assert_eq!(runs[0].font_size, 45);
    assert_eq!(runs[0].position, Point { x: 298 - 55, y: 15 });
    assert_eq!(runs[1].text, "Click or press ENTER to start");
    assert_eq!(runs[1].position, Point { x: 298 - 145, y: 241 });
}

#[test]
fn searching_screen_draws_small_and_large_lines() {
    let fonts = fonts();
    let runs = State::Searching.draw(Draw::new(&fonts, screen()), &width_ten_per_char).into_commands();
    assert_eq!(runs.len(), 2);
    assert_eq!((runs[0].font_size, runs[0].text.as_str()), (30, "Word Search"));
    assert_eq!((runs[1].font_size, runs[1].text.as_str()), (60, "Large..."));
    assert_eq!(runs[1].position, Point { x: 11, y: 398 });
}
