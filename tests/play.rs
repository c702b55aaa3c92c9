use clipbot::play::{attempt_message, join_reply, plan_play, plan_reply, play_source, PlayPlan, PlaySource};

#[test]
fn plain_words_are_a_search() {
    let text = "never gonna give you up";
    assert_eq!(play_source(text), PlaySource::Search { query: text.to_string() });
}

#[test]
fn scheme_prefix_is_a_direct_source() {
    let url = "https://www.youtube.com/watch?v=dQw4w9WgXcQ";
    assert_eq!(play_source(url), PlaySource::Direct { url: url.to_string() });
    assert_eq!(play_source("ftp://x"), PlaySource::Direct { url: "ftp://x".to_string() });
    assert_eq!(play_source("HTTP://x"), PlaySource::Direct { url: "HTTP://x".to_string() });
    assert_eq!(play_source("a+b-c.d:rest"), PlaySource::Direct { url: "a+b-c.d:rest".to_string() });
}

#[test]
fn text_without_scheme_is_a_search() {
    for text in ["http", "httpfoo bar", ":x", "1abc:x", "lofi beats: remix", ""] {
        assert_eq!(play_source(text), PlaySource::Search { query: text.to_string() });
    }
}

#[test]
fn outside_a_server_no_join() {
    let plan = plan_play("anything", None, Some(7));
    assert_eq!(plan, PlayPlan::NotInGuild);
    assert_eq!(plan_reply(&plan), Some("this command can only be used in servers".to_string()));
}

#[test]
fn caller_not_in_voice_channel() {
    let plan = plan_play("anything", Some(1), None);
    assert_eq!(plan, PlayPlan::NotInVoiceChannel);
    assert_eq!(plan_reply(&plan), Some("you are not in a voice channel".to_string()));
}

#[test]
fn join_with_search_source() {
    let plan = plan_play("lofi beats", Some(11), Some(22));
    assert_eq!(
        plan,
        PlayPlan::Join {
            guild_id: 11,
            channel_id: 22,
            source: PlaySource::Search { query: "lofi beats".to_string() },
        }
    );
    assert_eq!(plan_reply(&plan), None);
}

#[test]
fn attempt_message_names_the_text() {
    assert_eq!(attempt_message("lofi beats"), "attempting to play: lofi beats");
}

#[test]
fn join_replies() {
    assert_eq!(join_reply(None), "playing song");
    assert_eq!(
        join_reply(Some("timed out".to_string())),
        "failed to join voice channel: timed out"
    );
}
