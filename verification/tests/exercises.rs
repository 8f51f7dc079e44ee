use lessons::exercises::mmm_calc;
use lessons::exercises::pig_latin;
use lessons::exercises::split_whitespace_of;

#[test]
fn pig_latin_mixed_sentence() {
    assert_eq!(
        "irst-fay ell-tay e-may about-hay our-yay apples-hay",
        pig_latin("first tell me about your apples")
    );
}

#[test]
fn pig_latin_single_letters() {
    assert_eq!(
        "ress-pay fay o-tay ay-pay espects-ray",
        pig_latin("press f to pay respects")
    );
}

#[test]
fn pig_latin_empty_text() {
    assert_eq!("", pig_latin(""));
    assert_eq!("", pig_latin("   "));
}

#[test]
fn pig_latin_collapses_whitespace() {
    assert_eq!("a-hay bay", pig_latin("  a \t b \n"));
}

#[test]
fn split_whitespace_matches_std() {
    let text = " one  two\tthree \n four ";
    let expected: Vec<&str> = text.split_whitespace().collect();
    assert_eq!(expected, split_whitespace_of(text));
}

#[test]
fn mmm_of_exercise_list() {
    let foo = vec![1, 3, 2, 7, 5, 3, 10, 15];
    let m = mmm_calc(&foo);

    assert_eq!(vec![1, 2, 3, 3, 5, 7, 10, 15], m.numbers);
    assert_eq!(46, m.sum);
    assert_eq!(3, m.mode);
    assert_eq!(3, m.median_low);
    assert_eq!(5, m.median_high);

    let mean = m.sum as f32 / m.numbers.len() as f32;
    assert_eq!(5.75, mean);
    let median = (m.median_low as f32 + m.median_high as f32) / 2.0;
    assert_eq!(4.0, median);
}

#[test]
fn mmm_of_single_number() {
    let m = mmm_calc(&vec![42]);
    assert_eq!(vec![42], m.numbers);
    assert_eq!(42, m.sum);
    assert_eq!(42, m.mode);
    assert_eq!(42, m.median_low);
    assert_eq!(42, m.median_high);
}

#[test]
fn mmm_median_of_odd_length() {
    let m = mmm_calc(&vec![9, 1, 5]);
    assert_eq!(vec![1, 5, 9], m.numbers);
    assert_eq!(5, m.median_low);
    assert_eq!(5, m.median_high);
}
