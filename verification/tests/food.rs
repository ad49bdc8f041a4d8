use std::collections::VecDeque;

use snake_game::food::{Food, NoFreeCell};
use snake_game::snake::Snake;
use snake_game::vector::Vector2;

fn body_of(pairs: &[(i32, i32)]) -> VecDeque<Vector2> {
    pairs.iter().map(|&(x, y)| Vector2::new(x, y)).collect()
}

#[test]
fn random_cell_takes_coordinates_on_the_field() {
    assert_eq!(Food::generate_random_cell(0, 0), Some(Vector2::new(0, 0)));
    assert_eq!(Food::generate_random_cell(24, 24), Some(Vector2::new(24, 24)));
    assert_eq!(Food::generate_random_cell(10, 3), Some(Vector2::new(10, 3)));
}

#[test]
fn random_cell_refuses_coordinates_off_the_field() {
    assert_eq!(Food::generate_random_cell(25, 0), None);
    assert_eq!(Food::generate_random_cell(0, 25), None);
    assert_eq!(Food::generate_random_cell(-1, 5), None);
    assert_eq!(Food::generate_random_cell(5, -1), None);
    assert_eq!(Food::generate_random_cell(i32::MAX, i32::MIN), None);
}

#[test]
fn random_pos_is_the_first_draw_when_it_is_free() {
    let body = Snake::new().body;
    assert_eq!(Food::generate_random_pos(&vec![(10, 10), (11, 11)], &body), Ok(Vector2::new(10, 10)));
}

#[test]
fn random_pos_passes_over_cells_of_the_snake() {
    let body = Snake::new().body;
    let draws = vec![(6, 9), (4, 9), (5, 9), (3, 9), (10, 10)];
    assert_eq!(Food::generate_random_pos(&draws, &body), Ok(Vector2::new(3, 9)));
}

#[test]
fn random_pos_passes_over_cells_off_the_field() {
    let body = Snake::new().body;
    let draws = vec![(25, 3), (-1, 0), (7, 25), (24, 0)];
    assert_eq!(Food::generate_random_pos(&draws, &body), Ok(Vector2::new(24, 0)));
}

#[test]
fn random_pos_fails_when_no_draw_is_free() {
    let body = Snake::new().body;
    assert_eq!(Food::generate_random_pos(&vec![], &body), Err(NoFreeCell));
    assert_eq!(Food::generate_random_pos(&vec![(6, 9), (5, 9), (4, 9)], &body), Err(NoFreeCell));
    assert_eq!(Food::generate_random_pos(&vec![(30, 30), (6, 9)], &body), Err(NoFreeCell));
}

#[test]
fn random_pos_on_an_empty_body_takes_the_first_cell_on_the_field() {
    let body = body_of(&[]);
    assert_eq!(Food::generate_random_pos(&vec![(99, 0), (6, 9)], &body), Ok(Vector2::new(6, 9)));
}

#[test]
fn random_pos_fails_on_a_full_field() {
    let mut body = VecDeque::new();
    let mut draws = Vec::new();
    for x in 0..25 {
        for y in 0..25 {
            body.push_back(Vector2::new(x, y));
            draws.push((x, y));
        }
    }
    assert_eq!(Food::generate_random_pos(&draws, &body), Err(NoFreeCell));
    body.pop_back();
    assert_eq!(Food::generate_random_pos(&draws, &body), Ok(Vector2::new(24, 24)));
}

#[test]
fn new_food_lies_on_the_first_free_draw() {
    let body = Snake::new().body;
    let food = Food::new(&vec![(5, 9), (12, 0)], &body).unwrap();
    assert_eq!(food.pos, Vector2::new(12, 0));
}

#[test]
fn new_food_fails_without_a_free_draw() {
    let body = Snake::new().body;
    assert_eq!(Food::new(&vec![(5, 9)], &body).unwrap_err(), NoFreeCell);
}
