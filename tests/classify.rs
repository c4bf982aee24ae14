use eliar_core::classify::{classify_tone, sin_cue, spirit_cue, styled_reply, zeal_cue, ToneMode};

#[test]
fn tone_follows_keywords() {
    assert_eq!(classify_tone("기도를 통해 예수님과 더 가까워지고 싶어요"), ToneMode::Sacred);
    assert_eq!(classify_tone("경건한 하루"), ToneMode::Sacred);
    assert_eq!(classify_tone("오늘 정말 신나는 날이야!"), ToneMode::Joyful);
    assert_eq!(classify_tone("유쾌한 소식"), ToneMode::Joyful);
    assert_eq!(classify_tone("조금 힘든 하루였어요, 위로가 필요해요"), ToneMode::Comforting);
    assert_eq!(classify_tone("괜찮아요"), ToneMode::Comforting);
    assert_eq!(classify_tone("엘리아르 인스턴스 부팅 후 상태 확인"), ToneMode::Default);
    assert_eq!(classify_tone(""), ToneMode::Default);
}

#[test]
fn tone_prefers_sacred_then_joyful() {
    assert_eq!(classify_tone("신나는 기도, 위로"), ToneMode::Sacred);
    assert_eq!(classify_tone("위로가 되는 신나는 날"), ToneMode::Joyful);
}

#[test]
fn tone_labels() {
    assert_eq!(ToneMode::Sacred.label(), "sacred");
    assert_eq!(ToneMode::Joyful.label(), "joyful");
    assert_eq!(ToneMode::Comforting.label(), "comforting");
    assert_eq!(ToneMode::Default.label(), "default");
}

#[test]
fn cues() {
    assert!(spirit_cue("침묵 속에서"));
    assert!(spirit_cue("회개합니다"));
    assert!(!spirit_cue("Speed test prep"));
    assert!(sin_cue("죄를 고백"));
    assert!(sin_cue("회개"));
    assert!(!sin_cue("감사"));
    assert!(zeal_cue("업그레이드 해주세요"));
    assert!(!zeal_cue("업그레이"));
}

#[test]
fn styled_reply_uses_output_only_on_success() {
    let plain = String::from("plain");
    assert_eq!(styled_reply(plain.clone(), None), "plain");
    assert_eq!(styled_reply(plain.clone(), Some((false, String::from("styled")))), "plain");
    assert_eq!(styled_reply(plain, Some((true, String::from("styled")))), "styled");
}
