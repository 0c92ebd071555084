use solana_twitter::max_record_size;
use solana_twitter::send_tweet;
use solana_twitter::SendTweet;
use solana_twitter::Tweet;

#[test]
fn max_record_size_value() {
    assert_eq!(max_record_size(), 1376);
    assert_eq!(max_record_size(), 8 + 32 + 8 + (4 + 200) + (4 + 1120));
}

#[test]
fn max_record_size_stable_across_calls() {
    let first = max_record_size();
    let second = max_record_size();
    let third = max_record_size();
    assert_eq!(first, second);
    assert_eq!(second, third);
}

#[test]
fn max_record_size_unaffected_by_creation() {
    let before = max_record_size();
    let mut ctx = SendTweet {
        tweet: Tweet::default(),
        author: [1u8; 32],
    };
    let r = send_tweet(&mut ctx, String::from("a"), String::from("b"), 5);
    assert!(r.is_ok());
    assert_eq!(max_record_size(), before);
}
