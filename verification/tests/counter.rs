use context_bind::drive;
use context_bind::drive_interleaved;
use context_bind::CounterRoutine;

#[test]
fn ten_resumes_count_up() {
    // The scenario body `for i in 0, 1, 2, ...: swap(i)` resumed ten times.
    let mut m = CounterRoutine::new(1);
    let out = drive(&mut m, 10);
    assert_eq!(out, vec![0, 1, 2, 3, 4, 5, 6, 7, 8, 9]);
}

#[test]
fn delivered_words_are_ignored_by_the_counter_body() {
    let mut m = CounterRoutine::new(5);
    assert_eq!(m.exec(123), 0);
    assert_eq!(m.exec(9), 5);
    assert_eq!(m.exec(0), 10);
}

#[test]
fn setup_runs_exactly_once() {
    let mut m = CounterRoutine::new(3);
    assert_eq!(m.setups, 0);
    let mut k: usize = 0;
    while k < 10 {
        m.exec(0);
        k += 1;
    }
    assert_eq!(m.setups, 1);
    assert_eq!(m.yields, 10);
}

#[test]
fn interleave_order_is_immaterial() {
    // One routine yields i*2, the other i*4; alternating resumes and block
    // resumes deliver the same words to each.
    let mut alternating: Vec<bool> = Vec::new();
    let mut blocks: Vec<bool> = Vec::new();
    for i in 0..20 {
        alternating.push(i % 2 == 0);
        blocks.push(i < 10);
    }

    let mut a = CounterRoutine::new(2);
    let mut b = CounterRoutine::new(4);
    let (xa, xb) = drive_interleaved(&mut a, &mut b, &alternating);

    let mut c = CounterRoutine::new(2);
    let mut d = CounterRoutine::new(4);
    let (yc, yd) = drive_interleaved(&mut c, &mut d, &blocks);

    assert_eq!(xa, yc);
    assert_eq!(xb, yd);
    for x in 0..10 {
        assert_eq!(xa[x], x * 2);
        assert_eq!(xb[x], x * 4);
    }
}
