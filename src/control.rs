//! The decisions around device actions that do not touch the network:
//! reading an interactive command, and stepping a volume ramp.
use vstd::prelude::*;
use crate::actions::SetVolume;
use crate::text::parsed_u8;

verus! {

/// A command of the interactive prompt.
pub enum Command {
    Play,
    Pause,
    Queue,
    Current,
    GetVolume,
    Status,
    Next,
    Previous,
    EndControl,
    EnterQueue,
    Info,
    ClearQueue,
    Help,
    SetUri(String),
    SetVolume(SetVolume),
    Seek(String),
    AddToQueue(String),
}

/// The command that a keyword without an argument names.
pub open spec fn plain_command(w: Seq<char>) -> Option<Command> {
    if w == "play"@ {
        Some(Command::Play)
    } else if w == "pause"@ {
        Some(Command::Pause)
    } else if w == "queue"@ {
        Some(Command::Queue)
    } else if w == "current"@ {
        Some(Command::Current)
    } else if w == "getvolume"@ {
        Some(Command::GetVolume)
    } else if w == "status"@ {
        Some(Command::Status)
    } else if w == "next"@ {
        Some(Command::Next)
    } else if w == "previous"@ {
        Some(Command::Previous)
    } else if w == "endcontrol"@ {
        Some(Command::EndControl)
    } else if w == "enterqueue"@ {
        Some(Command::EnterQueue)
    } else if w == "info"@ {
        Some(Command::Info)
    } else if w == "clearqueue"@ {
        Some(Command::ClearQueue)
    } else if w == "help"@ {
        Some(Command::Help)
    } else {
        None
    }
}

fn is(word: &String, keyword: &str) -> (r: bool)
    ensures
        r == (word@ == keyword@),
{
    *word == String::from_str(keyword)
}

/// The keywords that take an argument name no plain command, and differ
/// from one another.
proof fn lemma_keywords_differ()
    ensures
        plain_command("seturi"@) is None,
        plain_command("seek"@) is None,
        plain_command("addtoqueue"@) is None,
        plain_command("setvolume"@) is None,
        "seek"@ != "seturi"@,
        "addtoqueue"@ != "seturi"@ && "addtoqueue"@ != "seek"@,
        "setvolume"@ != "seturi"@ && "setvolume"@ != "seek"@ && "setvolume"@ != "addtoqueue"@,
{
    reveal_strlit("play");
    reveal_strlit("pause");
    reveal_strlit("queue");
    reveal_strlit("current");
    reveal_strlit("getvolume");
    reveal_strlit("status");
    reveal_strlit("next");
    reveal_strlit("previous");
    reveal_strlit("endcontrol");
    reveal_strlit("enterqueue");
    reveal_strlit("info");
    reveal_strlit("clearqueue");
    reveal_strlit("help");
    reveal_strlit("seturi");
    reveal_strlit("seek");
    reveal_strlit("addtoqueue");
    reveal_strlit("setvolume");
    assert("seturi"@.len() != "play"@.len());
    assert("seturi"@.len() != "pause"@.len());
    assert("seturi"@.len() != "queue"@.len());
    assert("seturi"@.len() != "current"@.len());
    assert("seturi"@.len() != "getvolume"@.len());
    assert("seturi"@[1] != "status"@[1]);
    assert("seturi"@.len() != "next"@.len());
    assert("seturi"@.len() != "previous"@.len());
    assert("seturi"@.len() != "endcontrol"@.len());
    assert("seturi"@.len() != "enterqueue"@.len());
    assert("seturi"@.len() != "info"@.len());
    assert("seturi"@.len() != "clearqueue"@.len());
    assert("seturi"@.len() != "help"@.len());
    assert("seek"@[0] != "play"@[0]);
    assert("seek"@.len() != "pause"@.len());
    assert("seek"@.len() != "queue"@.len());
    assert("seek"@.len() != "current"@.len());
    assert("seek"@.len() != "getvolume"@.len());
    assert("seek"@.len() != "status"@.len());
    assert("seek"@[0] != "next"@[0]);
    assert("seek"@.len() != "previous"@.len());
    assert("seek"@.len() != "endcontrol"@.len());
    assert("seek"@.len() != "enterqueue"@.len());
    assert("seek"@[0] != "info"@[0]);
    assert("seek"@.len() != "clearqueue"@.len());
    assert("seek"@[0] != "help"@[0]);
    assert("seek"@.len() != "seturi"@.len());
    assert("addtoqueue"@.len() != "play"@.len());
    assert("addtoqueue"@.len() != "pause"@.len());
    assert("addtoqueue"@.len() != "queue"@.len());
    assert("addtoqueue"@.len() != "current"@.len());
    assert("addtoqueue"@.len() != "getvolume"@.len());
    assert("addtoqueue"@.len() != "status"@.len());
    assert("addtoqueue"@.len() != "next"@.len());
    assert("addtoqueue"@.len() != "previous"@.len());
    assert("addtoqueue"@[0] != "endcontrol"@[0]);
    assert("addtoqueue"@[0] != "enterqueue"@[0]);
    assert("addtoqueue"@.len() != "info"@.len());
    assert("addtoqueue"@[0] != "clearqueue"@[0]);
    assert("addtoqueue"@.len() != "help"@.len());
    assert("addtoqueue"@.len() != "seturi"@.len());
    assert("addtoqueue"@.len() != "seek"@.len());
    assert("setvolume"@.len() != "play"@.len());
    assert("setvolume"@.len() != "pause"@.len());
    assert("setvolume"@.len() != "queue"@.len());
    assert("setvolume"@.len() != "current"@.len());
    assert("setvolume"@[0] != "getvolume"@[0]);
    assert("setvolume"@.len() != "status"@.len());
    assert("setvolume"@.len() != "next"@.len());
    assert("setvolume"@.len() != "previous"@.len());
    assert("setvolume"@.len() != "endcontrol"@.len());
    assert("setvolume"@.len() != "enterqueue"@.len());
    assert("setvolume"@.len() != "info"@.len());
    assert("setvolume"@.len() != "clearqueue"@.len());
    assert("setvolume"@.len() != "help"@.len());
    assert("setvolume"@.len() != "seturi"@.len());
    assert("setvolume"@.len() != "seek"@.len());
    assert("setvolume"@.len() != "addtoqueue"@.len());
}

/// Reads an interactive command from its words: a keyword, then the
/// argument the keyword needs.
pub fn parse_command(words: &Vec<String>) -> (r: Result<Command, String>)
    ensures
        words@.len() == 0 ==> r is Err,
        words@.len() > 0 && plain_command(words@[0]@) is Some ==> r == Ok::<Command, String>(
            plain_command(words@[0]@)->Some_0,
        ),
        words@.len() > 0 && words@[0]@ == "seturi"@ ==> if words@.len() > 1 {
            r matches Ok(Command::SetUri(u)) && u@ == words@[1]@
        } else {
            r matches Err(e) && e@ == "must enter a URI"@
        },
        words@.len() > 0 && words@[0]@ == "seek"@ ==> if words@.len() > 1 {
            r matches Ok(Command::Seek(u)) && u@ == words@[1]@
        } else {
            r matches Err(e) && e@ == "must provide a target time"@
        },
        words@.len() > 0 && words@[0]@ == "addtoqueue"@ ==> if words@.len() > 1 {
            r matches Ok(Command::AddToQueue(u)) && u@ == words@[1]@
        } else {
            r matches Err(e) && e@ == "must provide a URI"@
        },
        words@.len() > 0 && words@[0]@ == "setvolume"@ ==> if words@.len() > 1 {
            match parsed_u8(words@[1]@) {
                Some(v) => if v <= 100 {
                    r matches Ok(Command::SetVolume(a)) && a.volume() == v
                } else {
                    r is Err
                },
                None => r matches Err(e) && e@ == "invalid volume"@,
            }
        } else {
            r matches Err(e) && e@ == "must provide volume"@
        },
        words@.len() > 0 && plain_command(words@[0]@) is None && words@[0]@ != "seturi"@ && words@[0]@ != "seek"@ && words@[0]@ != "addtoqueue"@
            && words@[0]@ != "setvolume"@ ==> (r matches Err(e) && e@ == "invalid command"@),
{
    if words.len() == 0 {
        return Err(String::from_str("invalid command"));
    }
    let word = &words[0];
    proof {
        lemma_keywords_differ();
    }
    if is(word, "play") {
        Ok(Command::Play)
    } else if is(word, "pause") {
        Ok(Command::Pause)
    } else if is(word, "queue") {
        Ok(Command::Queue)
    } else if is(word, "current") {
        Ok(Command::Current)
    } else if is(word, "getvolume") {
        Ok(Command::GetVolume)
    } else if is(word, "status") {
        Ok(Command::Status)
    } else if is(word, "next") {
        Ok(Command::Next)
    } else if is(word, "previous") {
        Ok(Command::Previous)
    } else if is(word, "endcontrol") {
        Ok(Command::EndControl)
    } else if is(word, "enterqueue") {
        Ok(Command::EnterQueue)
    } else if is(word, "info") {
        Ok(Command::Info)
    } else if is(word, "clearqueue") {
        Ok(Command::ClearQueue)
    } else if is(word, "help") {
        Ok(Command::Help)
    } else if is(word, "seturi") {
        if words.len() > 1 {
            Ok(Command::SetUri(words[1].clone()))
        } else {
            Err(String::from_str("must enter a URI"))
        }
    } else if is(word, "seek") {
        if words.len() > 1 {
            Ok(Command::Seek(words[1].clone()))
        } else {
            Err(String::from_str("must provide a target time"))
        }
    } else if is(word, "addtoqueue") {
        if words.len() > 1 {
            Ok(Command::AddToQueue(words[1].clone()))
        } else {
            Err(String::from_str("must provide a URI"))
        }
    } else if is(word, "setvolume") {
        if words.len() > 1 {
            match SetVolume::from_text(words[1].as_str()) {
                Ok(a) => Ok(Command::SetVolume(a)),
                Err(e) => Err(e),
            }
        } else {
            Err(String::from_str("must provide volume"))
        }
    } else {
        Err(String::from_str("invalid command"))
    }
}

/// Checks the step of a volume ramp: at most 100 either way.
pub fn validate_volume_change(change: i32) -> (r: Result<(), String>)
    ensures
        r is Ok <==> -100 <= change <= 100,
{
    if change < -100 || change > 100 {
        return Err(String::from_str("Change in volume must be between -100 and 100"));
    }
    Ok(())
}

/// One step of a volume ramp from `volume`: the next volume, or `None` where
/// the step would leave the range 0 to 100 and the ramp stops.
pub fn next_volume(volume: u8, change: i32) -> (r: Option<u8>)
    requires
        -100 <= change <= 100,
    ensures
        0 <= volume + change <= 100 ==> r == Some((volume + change) as u8),
        !(0 <= volume + change <= 100) ==> r is None,
{
    let next: i32 = volume as i32 + change;
    if next < 0 || next > 100 {
        None
    } else {
        Some(next as u8)
    }
}

} // verus!
