//! The steps driven by timers and the window.

use vstd::prelude::*;
use crate::music_file::{FileReport, OpenOutcome, TagRead};
use crate::session::{RIMusic, backend_defined, backend_spec};
use crate::settings::Settings;
use crate::state::{AudioCommand, BackendMessage, Facts};

verus! {

/// A timer or window step (see [`backend_spec`]).
pub fn update(msg: BackendMessage, app: &mut RIMusic, facts: &Facts, cmds: &mut Vec<AudioCommand>) -> (r: Option<Settings>)
    requires
        backend_defined(old(app)@, msg, facts),
    ensures
        final(app)@ == backend_spec(old(app)@, msg, facts).app,
        final(cmds)@ == old(cmds)@ + backend_spec(old(app)@, msg, facts).commands,
        match (r, backend_spec(old(app)@, msg, facts).saved) {
            (Some(x), Some(y)) => x@ == y,
            (None, None) => true,
            _ => false,
        },
{
    match msg {
        BackendMessage::Sync => {
            let res = app.player.sync(
                &mut app.store,
                facts.player_empty,
                facts.random_pick,
                &facts.report,
                cmds,
            );
            if res.is_err() {
                app.ui.show_music_open_failure = true;
            }
            None
        },
        BackendMessage::CloseSave => {
            let export = app.settings.save(&app.store, &app.player, facts.position_ns);
            app.exit = true;
            assert(old(cmds)@ + seq![] =~= old(cmds)@);
            Some(export)
        },
        BackendMessage::ReadFileData => {
            match &facts.report {
                Some(rep) => {
                    app.store.read_one(rep);
                },
                None => {
                    let placeholder = FileReport {
                        path: String::new(),
                        open: OpenOutcome::Unplayable,
                        tags: TagRead::OpenFailed,
                        decoded_duration: None,
                    };
                    app.store.read_one(&placeholder);
                },
            }
            assert(old(cmds)@ + seq![] =~= old(cmds)@);
            None
        },
    }
}

} // verus!
