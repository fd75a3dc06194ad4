use nibblemix::channel::retrieve_pix;
use nibblemix::channel::sum_pix;

#[test]
fn encode_bw() {
    assert_eq!(15, sum_pix(0, 255));
}

#[test]
fn encode_wb() {
    assert_eq!(240, sum_pix(255, 0));
}

#[test]
fn encode_bb() {
    assert_eq!(0, sum_pix(0, 0));
}

#[test]
fn encode_ww() {
    assert_eq!(255, sum_pix(255, 255));
}

#[test]
fn encode_gg() {
    assert_eq!(119, sum_pix(127, 127));
}

#[test]
fn encode_gg2() {
    assert_eq!(136, sum_pix(128, 128));
}

#[test]
fn decode_bw() {
    assert_eq!(240, retrieve_pix(15));
}

#[test]
fn decode_wb() {
    assert_eq!(0, retrieve_pix(240));
}

#[test]
fn decode_bb() {
    assert_eq!(0, retrieve_pix(0));
}

#[test]
fn decode_ww() {
    assert_eq!(240, retrieve_pix(255));
}

#[test]
fn decode_gg() {
    assert_eq!(112, retrieve_pix(119));
}

#[test]
fn decode_gg2() {
    assert_eq!(128, retrieve_pix(136));
}

#[test]
fn round_trip_recovers_high_nibble() {
    // extract(combine(base, payload)) == (payload / 16) * 16, whatever the base.
    assert_eq!(240, retrieve_pix(sum_pix(0, 255)));
    assert_eq!(0, retrieve_pix(sum_pix(255, 0)));
    assert_eq!(112, retrieve_pix(sum_pix(200, 127)));
    assert_eq!(128, retrieve_pix(sum_pix(3, 128)));
}

#[test]
fn extract_twice_is_not_idempotent() {
    // A second extraction always lands on zero, so it differs from the first
    // wherever the first result is nonzero.
    let once = retrieve_pix(15);
    assert_eq!(240, once);
    assert_eq!(0, retrieve_pix(once));
    assert_eq!(0, retrieve_pix(retrieve_pix(255)));
}
