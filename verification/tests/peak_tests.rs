use rtherm::error::PipelineError;
use rtherm::peak::find_peak;
use rtherm::thermal::TemperatureGrid;

fn grid_of(width: usize, height: usize, temps: Vec<i32>) -> TemperatureGrid {
    assert_eq!(temps.len(), width * height);
    TemperatureGrid { width, height, temps }
}

#[test]
fn single_strict_maximum_is_found_in_the_middle() {
    let mut temps = vec![10i32; 5 * 4];
    temps[2 * 5 + 3] = 50;  // column 3, row 2
    let p = find_peak(&grid_of(5, 4, temps)).unwrap();
    assert_eq!((p.x, p.y, p.temp), (3, 2, 50));
}

#[test]
fn single_strict_maximum_is_found_at_the_first_cell() {
    let mut temps = vec![-7i32; 6 * 2];
    temps[0] = -1;
    let p = find_peak(&grid_of(6, 2, temps)).unwrap();
    assert_eq!((p.x, p.y, p.temp), (0, 0, -1));
}

#[test]
fn single_strict_maximum_is_found_at_the_last_cell() {
    let mut temps = vec![0i32; 3 * 3];
    temps[8] = 9;
    let p = find_peak(&grid_of(3, 3, temps)).unwrap();
    assert_eq!((p.x, p.y, p.temp), (2, 2, 9));
}

#[test]
fn uniform_grid_returns_the_origin() {
    let p = find_peak(&grid_of(4, 3, vec![42i32; 12])).unwrap();
    assert_eq!((p.x, p.y, p.temp), (0, 0, 42));
}

#[test]
fn tie_keeps_the_first_cell_in_row_major_order() {
    let mut temps = vec![1i32; 4 * 4];
    temps[5] = 30;
    temps[11] = 30;
    let p = find_peak(&grid_of(4, 4, temps)).unwrap();
    assert_eq!((p.x, p.y, p.temp), (1, 1, 30));
}

#[test]
fn empty_grid_fails_with_empty_grid_error() {
    let r = find_peak(&grid_of(0, 0, Vec::new()));
    assert!(matches!(r, Err(PipelineError::EmptyGrid)));
}
