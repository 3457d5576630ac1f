use pandemist_vehicle_elements::annoucement_player::AnnoucementPlayer;
use pandemist_vehicle_elements::annoucements::{parse_glued_announcement, parse_i32, split_plus};

fn chars(s: &str) -> Vec<char> {
    s.chars().collect()
}

#[test]
fn splitting_keeps_empty_parts() {
    assert_eq!(split_plus(""), vec![chars("")]);
    assert_eq!(split_plus("1+2"), vec![chars("1"), chars("2")]);
    assert_eq!(split_plus("+a+"), vec![chars(""), chars("a"), chars("")]);
}

#[test]
fn parsing_numbers_like_std() {
    for s in ["0", "42", "-7", "+5", "2147483647", "-2147483648", "2147483648", "", "-", "+", "1a", " 1", "007", "99999999999"] {
        assert_eq!(parse_i32(&chars(s)), s.parse::<i32>().ok(), "{s}");
    }
}

#[test]
fn glued_announcements() {
    assert_eq!(parse_glued_announcement("12+3+12+7"), vec![(12, 3), (12, 7)]);
    assert_eq!(parse_glued_announcement("12+3+12"), vec![(12, 3)]);
    assert_eq!(parse_glued_announcement("1+x+3+4"), vec![(3, 4)]);
    assert_eq!(parse_glued_announcement(""), vec![]);
    assert_eq!(parse_glued_announcement("-1+-2"), vec![(-1, -2)]);
}

#[test]
fn player_requests() {
    let mut p = AnnoucementPlayer::new("ela".to_string());
    let g = p.play_glued_announcement("5+6");
    assert_eq!(g.sound, "snd_ela");
    assert_eq!(g.collection, "Ansage");
    assert_eq!(g.parts, vec![(5, 6)]);
    p.prepare_normal_annoucement(77);
    let r = p.play_normal_annoucement(3);
    assert_eq!(r.sound, "snd_ela");
    assert_eq!(r.user_id, 77);
    assert_eq!(r.sub_id, 3);
}
