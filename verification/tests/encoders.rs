use footage::encoders::{rank_encoders, EncoderCandidate};

fn c(rank: i32, produces_format: bool) -> EncoderCandidate {
    EncoderCandidate { rank, produces_format }
}

#[test]
fn encoders_sorted_by_rank_then_registry_order() {
    let candidates = [c(128, true), c(256, true), c(64, false), c(256, true), c(0, true)];
    assert_eq!(rank_encoders(&candidates), vec![1, 3, 0, 4]);
}

#[test]
fn encoders_that_cannot_produce_are_left_out() {
    assert!(rank_encoders(&[c(256, false), c(1, false)]).is_empty());
    assert!(rank_encoders(&[]).is_empty());
    assert_eq!(rank_encoders(&[c(-5, true), c(10, true)]), vec![1, 0]);
}
