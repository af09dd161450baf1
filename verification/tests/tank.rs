use tanks::tank::{tread_pixels, Team, TREAD_SIZE};

#[test]
fn tread_texture_size() {
    assert_eq!(tread_pixels().len(), (4 * TREAD_SIZE * TREAD_SIZE) as usize);
}

#[test]
fn tread_texture_stripes_two_rows_thick() {
    let data = tread_pixels();
    let dark = [34u8, 34, 38, 255];
    let light = [70u8, 70, 74, 255];
    for y in 0..8usize {
        let expected = if (y / 2) % 2 == 0 { dark } else { light };
        for x in 0..8usize {
            let k = 4 * (8 * y + x);
            assert_eq!(&data[k..k + 4], &expected);
        }
    }
}

#[test]
fn tread_texture_first_rows() {
    let data = tread_pixels();
    assert_eq!(&data[0..4], &[34, 34, 38, 255]);
    assert_eq!(&data[64..68], &[70, 70, 74, 255]);
    assert_eq!(&data[128..132], &[34, 34, 38, 255]);
}

#[test]
fn teams_differ() {
    assert_ne!(Team::Player, Team::Enemy);
    assert_eq!(Team::Player, Team::Player);
}
