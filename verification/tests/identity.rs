use video_transcriber::identity::generate_video_id;

#[test]
fn id_is_sixteen_hex_digits_of_the_digest() {
    assert_eq!(generate_video_id("https://example.com/v1"), "c2939bd1ae5fce5b");
    assert_eq!(generate_video_id(""), "e3b0c44298fc1c14");
    assert_eq!(generate_video_id("abc"), "ba7816bf8f01cfea");
}

#[test]
fn id_is_the_same_on_every_call() {
    let first = generate_video_id("https://example.com/watch?v=1");
    let second = generate_video_id("https://example.com/watch?v=1");
    assert_eq!(first, second);
    assert_eq!(first.len(), 16);
    assert_ne!(first, generate_video_id("https://example.com/watch?v=2"));
}
