//! The announcement player: plays announcements made of sound content.
//!
//! Playing is the host's work: the player returns what to play.
use vstd::prelude::*;
use crate::annoucements::{parse_glued_announcement, glued_pairs, split_on};

verus! {

/// A request to play one piece of sound content on a sound.
#[derive(Debug, Clone, PartialEq, Eq)]
pub struct IndependentSoundRequest {
    /// The sound to play it on.
    pub sound: String,
    pub user_id: usize,
    pub sub_id: usize,
}

/// A request to play a sequence of sound contents, glued together.
#[derive(Debug, Clone, PartialEq, Eq)]
pub struct GluedSoundRequest {
    /// The sound to play it on.
    pub sound: String,
    /// The name of the glued sound.
    pub collection: String,
    /// The contents, as (user id, sub id), in order.
    pub parts: Vec<(i32, i32)>,
}

/// The abstract state of the player.
pub struct AnnoucementPlayerModel {
    pub name_id: Seq<char>,
    pub snd: Seq<char>,
    pub normal_annoucement_uid: nat,
}

/// An announcement player with its sound.
#[derive(Debug, Default)]
pub struct AnnoucementPlayer {
    name_id: String,
    snd: String,
    normal_annoucement_uid: usize,
}

impl View for AnnoucementPlayer {
    type V = AnnoucementPlayerModel;

    closed spec fn view(&self) -> AnnoucementPlayerModel {
        AnnoucementPlayerModel {
            name_id: self.name_id@,
            snd: self.snd@,
            normal_annoucement_uid: self.normal_annoucement_uid as nat,
        }
    }
}

impl AnnoucementPlayer {
    /// A player named `name`, playing on the sound `snd_<name>`.
    pub fn new(name: String) -> (res: Self)
        ensures
            res@ == (AnnoucementPlayerModel {
                name_id: name@,
                snd: "snd_"@ + name@,
                normal_annoucement_uid: 0,
            }),
    {
        let snd = String::from_str("snd_").concat(name.as_str());
        AnnoucementPlayer { name_id: name, snd, normal_annoucement_uid: 0 }
    }

    /// Plays a glued announcement such as `"12+3+12+7"`: the contents of its
    /// valid (user id, sub id) pairs, glued in the sound `Ansage`.
    pub fn play_glued_announcement(&mut self, s: &str) -> (res: GluedSoundRequest)
        ensures
            final(self)@ == old(self)@,
            res.sound@ == old(self)@.snd,
            res.collection@ == "Ansage"@,
            res.parts@ == glued_pairs(split_on(s@, '+')),
    {
        let parts = parse_glued_announcement(s);
        GluedSoundRequest { sound: self.snd.clone(), collection: String::from_str("Ansage"), parts }
    }

    /// Chooses the user id of the next normal announcements.
    pub fn prepare_normal_annoucement(&mut self, uid: usize)
        ensures
            final(self)@ == (AnnoucementPlayerModel { normal_annoucement_uid: uid as nat, ..old(self)@ }),
    {
        self.normal_annoucement_uid = uid;
    }

    /// Plays the normal announcement `subid` of the prepared user id.
    pub fn play_normal_annoucement(&mut self, subid: usize) -> (res: IndependentSoundRequest)
        ensures
            final(self)@ == old(self)@,
            res.sound@ == old(self)@.snd,
            res.user_id == old(self)@.normal_annoucement_uid,
            res.sub_id == subid,
    {
        IndependentSoundRequest { sound: self.snd.clone(), user_id: self.normal_annoucement_uid, sub_id: subid }
    }
}

} // verus!
