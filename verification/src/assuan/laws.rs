//! What the command loop does with the options and the key identifier it is
//! given, and what `GETINFO ttyinfo` reports, stated for every input.
use vstd::prelude::*;
use vstd::utf8::encode_utf8;
use crate::assuan::error::ASS_PARAMETER;
use crate::assuan::server::{
    apply_option, command_of, data_lines, decoded, err_bytes, option_key_value, strip_dashes, is_word, nonempty, with_options, lemma_split_word, lemma_strip_eol_concat, ok_line, or_dash,
    reply, respond, run_command, strip_eol, ttyinfo, with_request, Answers, Command, Field, HostInfo,
};
use crate::assuan::state::{
    parse_owner, spec_effective_cancel, spec_effective_ok, OptionsModel, RequestModel, StateModel,
};
use crate::text::{ascii_upper, decimal, find, is_ws, parse_i64, parse_u32, trim, trim_end, trim_start};

verus! {

/// Each `OPTION` key that takes a value writes that value to its own option
/// and leaves every other option as it was; each flag sets only its own.
pub proof fn law_each_option_sets_only_its_own_field(o: OptionsModel, v: Seq<char>)
    ensures
        apply_option(o, "ttyname"@, v) == Some(OptionsModel { ttyname: Some(v), ..o }),
        apply_option(o, "ttytype"@, v) == Some(OptionsModel { ttytype: Some(v), ..o }),
        apply_option(o, "ttyalert"@, v) == Some(OptionsModel { ttyalert: Some(v), ..o }),
        apply_option(o, "lc-ctype"@, v) == Some(OptionsModel { lc_ctype: Some(v), ..o }),
        apply_option(o, "lc-messages"@, v) == Some(OptionsModel { lc_messages: Some(v), ..o }),
        apply_option(o, "display"@, v) == Some(OptionsModel { display: Some(v), ..o }),
        apply_option(o, "touch-file"@, v) == Some(OptionsModel { touch_file: Some(v), ..o }),
        apply_option(o, "default-ok"@, v) == Some(OptionsModel { default_ok: Some(v), ..o }),
        apply_option(o, "default-cancel"@, v) == Some(
            OptionsModel { default_cancel: Some(v), ..o },
        ),
        apply_option(o, "default-prompt"@, v) == Some(
            OptionsModel { default_prompt: Some(v), ..o },
        ),
        apply_option(o, "default-pwmngr"@, v) == Some(
            OptionsModel { default_pwmngr: Some(v), ..o },
        ),
        apply_option(o, "default-cf-visi"@, v) == Some(
            OptionsModel { default_cf_visi: Some(v), ..o },
        ),
        apply_option(o, "default-tt-visi"@, v) == Some(
            OptionsModel { default_tt_visi: Some(v), ..o },
        ),
        apply_option(o, "default-tt-hide"@, v) == Some(
            OptionsModel { default_tt_hide: Some(v), ..o },
        ),
        apply_option(o, "default-capshint"@, v) == Some(
            OptionsModel { default_capshint: Some(v), ..o },
        ),
        apply_option(o, "invisible-char"@, v) == Some(
            OptionsModel { invisible_char: Some(v), ..o },
        ),
        apply_option(o, "grab"@, v) == Some(OptionsModel { grab: true, ..o }),
        apply_option(o, "no-grab"@, v) == Some(OptionsModel { grab: false, ..o }),
        apply_option(o, "allow-external-password-cache"@, v) == Some(
            OptionsModel { allow_external_password_cache: true, ..o },
        ),
        apply_option(o, "formatted-passphrase"@, v) == Some(
            OptionsModel { formatted_passphrase: true, ..o },
        ),
        apply_option(o, "constraints-enforce"@, v) == Some(
            OptionsModel { constraints_enforce: true, ..o },
        ),
{
    assert(apply_option(o, "grab"@, v) == Some(OptionsModel { grab: true, ..o })) by {
        reveal_strlit("grab");
    }
    assert(apply_option(o, "no-grab"@, v) == Some(OptionsModel { grab: false, ..o })) by {
        reveal_strlit("no-grab");
        reveal_strlit("grab");
        assert("no-grab"@.len() != "grab"@.len());
    }
    assert(apply_option(o, "ttyname"@, v) == Some(OptionsModel { ttyname: Some(v), ..o })) by {
        reveal_strlit("ttyname");
        reveal_strlit("grab");
        assert("ttyname"@.len() != "grab"@.len());
        reveal_strlit("no-grab");
        assert("ttyname"@[0] != "no-grab"@[0]);
    }
    assert(apply_option(o, "ttytype"@, v) == Some(OptionsModel { ttytype: Some(v), ..o })) by {
        reveal_strlit("ttytype");
        reveal_strlit("grab");
        assert("ttytype"@.len() != "grab"@.len());
        reveal_strlit("no-grab");
        assert("ttytype"@[0] != "no-grab"@[0]);
        reveal_strlit("ttyname");
        assert("ttytype"@[3] != "ttyname"@[3]);
    }
    assert(apply_option(o, "ttyalert"@, v) == Some(OptionsModel { ttyalert: Some(v), ..o })) by {
        reveal_strlit("ttyalert");
        reveal_strlit("grab");
        assert("ttyalert"@.len() != "grab"@.len());
        reveal_strlit("no-grab");
        assert("ttyalert"@.len() != "no-grab"@.len());
        reveal_strlit("ttyname");
        assert("ttyalert"@.len() != "ttyname"@.len());
        reveal_strlit("ttytype");
        assert("ttyalert"@.len() != "ttytype"@.len());
    }
    assert(apply_option(o, "lc-ctype"@, v) == Some(OptionsModel { lc_ctype: Some(v), ..o })) by {
        reveal_strlit("lc-ctype");
        reveal_strlit("grab");
        assert("lc-ctype"@.len() != "grab"@.len());
        reveal_strlit("no-grab");
        assert("lc-ctype"@.len() != "no-grab"@.len());
        reveal_strlit("ttyname");
        assert("lc-ctype"@.len() != "ttyname"@.len());
        reveal_strlit("ttytype");
        assert("lc-ctype"@.len() != "ttytype"@.len());
        reveal_strlit("ttyalert");
        assert("lc-ctype"@[0] != "ttyalert"@[0]);
    }
    assert(apply_option(o, "lc-messages"@, v) == Some(OptionsModel { lc_messages: Some(v), ..o })) by {
        reveal_strlit("lc-messages");
        reveal_strlit("grab");
        assert("lc-messages"@.len() != "grab"@.len());
        reveal_strlit("no-grab");
        assert("lc-messages"@.len() != "no-grab"@.len());
        reveal_strlit("ttyname");
        assert("lc-messages"@.len() != "ttyname"@.len());
        reveal_strlit("ttytype");
        assert("lc-messages"@.len() != "ttytype"@.len());
        reveal_strlit("ttyalert");
        assert("lc-messages"@.len() != "ttyalert"@.len());
        reveal_strlit("lc-ctype");
        assert("lc-messages"@.len() != "lc-ctype"@.len());
    }
    assert(apply_option(o, "display"@, v) == Some(OptionsModel { display: Some(v), ..o })) by {
        reveal_strlit("display");
        reveal_strlit("grab");
        assert("display"@.len() != "grab"@.len());
        reveal_strlit("no-grab");
        assert("display"@[0] != "no-grab"@[0]);
        reveal_strlit("ttyname");
        assert("display"@[0] != "ttyname"@[0]);
        reveal_strlit("ttytype");
        assert("display"@[0] != "ttytype"@[0]);
        reveal_strlit("ttyalert");
        assert("display"@.len() != "ttyalert"@.len());
        reveal_strlit("lc-ctype");
        assert("display"@.len() != "lc-ctype"@.len());
        reveal_strlit("lc-messages");
        assert("display"@.len() != "lc-messages"@.len());
    }
    assert(apply_option(o, "touch-file"@, v) == Some(OptionsModel { touch_file: Some(v), ..o })) by {
        reveal_strlit("touch-file");
        reveal_strlit("grab");
        assert("touch-file"@.len() != "grab"@.len());
        reveal_strlit("no-grab");
        assert("touch-file"@.len() != "no-grab"@.len());
        reveal_strlit("ttyname");
        assert("touch-file"@.len() != "ttyname"@.len());
        reveal_strlit("ttytype");
        assert("touch-file"@.len() != "ttytype"@.len());
        reveal_strlit("ttyalert");
        assert("touch-file"@.len() != "ttyalert"@.len());
        reveal_strlit("lc-ctype");
        assert("touch-file"@.len() != "lc-ctype"@.len());
        reveal_strlit("lc-messages");
        assert("touch-file"@.len() != "lc-messages"@.len());
        reveal_strlit("display");
        assert("touch-file"@.len() != "display"@.len());
        reveal_strlit("owner");
        assert("touch-file"@.len() != "owner"@.len());
        reveal_strlit("parent-wid");
        assert("touch-file"@[0] != "parent-wid"@[0]);
    }
    assert(apply_option(o, "default-ok"@, v) == Some(OptionsModel { default_ok: Some(v), ..o })) by {
        reveal_strlit("default-ok");
        reveal_strlit("grab");
        assert("default-ok"@.len() != "grab"@.len());
        reveal_strlit("no-grab");
        assert("default-ok"@.len() != "no-grab"@.len());
        reveal_strlit("ttyname");
        assert("default-ok"@.len() != "ttyname"@.len());
        reveal_strlit("ttytype");
        assert("default-ok"@.len() != "ttytype"@.len());
        reveal_strlit("ttyalert");
        assert("default-ok"@.len() != "ttyalert"@.len());
        reveal_strlit("lc-ctype");
        assert("default-ok"@.len() != "lc-ctype"@.len());
        reveal_strlit("lc-messages");
        assert("default-ok"@.len() != "lc-messages"@.len());
        reveal_strlit("display");
        assert("default-ok"@.len() != "display"@.len());
        reveal_strlit("owner");
        assert("default-ok"@.len() != "owner"@.len());
        reveal_strlit("parent-wid");
        assert("default-ok"@[0] != "parent-wid"@[0]);
        reveal_strlit("touch-file");
        assert("default-ok"@[0] != "touch-file"@[0]);
    }
    assert(apply_option(o, "default-cancel"@, v) == Some(OptionsModel { default_cancel: Some(v), ..o })) by {
        reveal_strlit("default-cancel");
        reveal_strlit("grab");
        assert("default-cancel"@.len() != "grab"@.len());
        reveal_strlit("no-grab");
        assert("default-cancel"@.len() != "no-grab"@.len());
        reveal_strlit("ttyname");
        assert("default-cancel"@.len() != "ttyname"@.len());
        reveal_strlit("ttytype");
        assert("default-cancel"@.len() != "ttytype"@.len());
        reveal_strlit("ttyalert");
        assert("default-cancel"@.len() != "ttyalert"@.len());
        reveal_strlit("lc-ctype");
        assert("default-cancel"@.len() != "lc-ctype"@.len());
        reveal_strlit("lc-messages");
        assert("default-cancel"@.len() != "lc-messages"@.len());
        reveal_strlit("display");
        assert("default-cancel"@.len() != "display"@.len());
        reveal_strlit("owner");
        assert("default-cancel"@.len() != "owner"@.len());
        reveal_strlit("parent-wid");
        assert("default-cancel"@.len() != "parent-wid"@.len());
        reveal_strlit("touch-file");
        assert("default-cancel"@.len() != "touch-file"@.len());
        reveal_strlit("default-ok");
        assert("default-cancel"@.len() != "default-ok"@.len());
    }
    assert(apply_option(o, "default-prompt"@, v) == Some(OptionsModel { default_prompt: Some(v), ..o })) by {
        reveal_strlit("default-prompt");
        reveal_strlit("grab");
        assert("default-prompt"@.len() != "grab"@.len());
        reveal_strlit("no-grab");
        assert("default-prompt"@.len() != "no-grab"@.len());
        reveal_strlit("ttyname");
        assert("default-prompt"@.len() != "ttyname"@.len());
        reveal_strlit("ttytype");
        assert("default-prompt"@.len() != "ttytype"@.len());
        reveal_strlit("ttyalert");
        assert("default-prompt"@.len() != "ttyalert"@.len());
        reveal_strlit("lc-ctype");
        assert("default-prompt"@.len() != "lc-ctype"@.len());
        reveal_strlit("lc-messages");
        assert("default-prompt"@.len() != "lc-messages"@.len());
        reveal_strlit("display");
        assert("default-prompt"@.len() != "display"@.len());
        reveal_strlit("owner");
        assert("default-prompt"@.len() != "owner"@.len());
        reveal_strlit("parent-wid");
        assert("default-prompt"@.len() != "parent-wid"@.len());
        reveal_strlit("touch-file");
        assert("default-prompt"@.len() != "touch-file"@.len());
        reveal_strlit("default-ok");
        assert("default-prompt"@.len() != "default-ok"@.len());
        reveal_strlit("default-cancel");
        assert("default-prompt"@[8] != "default-cancel"@[8]);
    }
    assert(apply_option(o, "default-pwmngr"@, v) == Some(OptionsModel { default_pwmngr: Some(v), ..o })) by {
        reveal_strlit("default-pwmngr");
        reveal_strlit("grab");
        assert("default-pwmngr"@.len() != "grab"@.len());
        reveal_strlit("no-grab");
        assert("default-pwmngr"@.len() != "no-grab"@.len());
        reveal_strlit("ttyname");
        assert("default-pwmngr"@.len() != "ttyname"@.len());
        reveal_strlit("ttytype");
        assert("default-pwmngr"@.len() != "ttytype"@.len());
        reveal_strlit("ttyalert");
        assert("default-pwmngr"@.len() != "ttyalert"@.len());
        reveal_strlit("lc-ctype");
        assert("default-pwmngr"@.len() != "lc-ctype"@.len());
        reveal_strlit("lc-messages");
        assert("default-pwmngr"@.len() != "lc-messages"@.len());
        reveal_strlit("display");
        assert("default-pwmngr"@.len() != "display"@.len());
        reveal_strlit("owner");
        assert("default-pwmngr"@.len() != "owner"@.len());
        reveal_strlit("parent-wid");
        assert("default-pwmngr"@.len() != "parent-wid"@.len());
        reveal_strlit("touch-file");
        assert("default-pwmngr"@.len() != "touch-file"@.len());
        reveal_strlit("default-ok");
        assert("default-pwmngr"@.len() != "default-ok"@.len());
        reveal_strlit("default-cancel");
        assert("default-pwmngr"@[8] != "default-cancel"@[8]);
        reveal_strlit("default-prompt");
        assert("default-pwmngr"@[9] != "default-prompt"@[9]);
    }
    assert(apply_option(o, "default-cf-visi"@, v) == Some(OptionsModel { default_cf_visi: Some(v), ..o })) by {
        reveal_strlit("default-cf-visi");
        reveal_strlit("grab");
        assert("default-cf-visi"@.len() != "grab"@.len());
        reveal_strlit("no-grab");
        assert("default-cf-visi"@.len() != "no-grab"@.len());
        reveal_strlit("ttyname");
        assert("default-cf-visi"@.len() != "ttyname"@.len());
        reveal_strlit("ttytype");
        assert("default-cf-visi"@.len() != "ttytype"@.len());
        reveal_strlit("ttyalert");
        assert("default-cf-visi"@.len() != "ttyalert"@.len());
        reveal_strlit("lc-ctype");
        assert("default-cf-visi"@.len() != "lc-ctype"@.len());
        reveal_strlit("lc-messages");
        assert("default-cf-visi"@.len() != "lc-messages"@.len());
        reveal_strlit("display");
        assert("default-cf-visi"@.len() != "display"@.len());
        reveal_strlit("owner");
        assert("default-cf-visi"@.len() != "owner"@.len());
        reveal_strlit("parent-wid");
        assert("default-cf-visi"@.len() != "parent-wid"@.len());
        reveal_strlit("touch-file");
        assert("default-cf-visi"@.len() != "touch-file"@.len());
        reveal_strlit("default-ok");
        assert("default-cf-visi"@.len() != "default-ok"@.len());
        reveal_strlit("default-cancel");
        assert("default-cf-visi"@.len() != "default-cancel"@.len());
        reveal_strlit("default-prompt");
        assert("default-cf-visi"@.len() != "default-prompt"@.len());
        reveal_strlit("default-pwmngr");
        assert("default-cf-visi"@.len() != "default-pwmngr"@.len());
    }
    assert(apply_option(o, "default-tt-visi"@, v) == Some(OptionsModel { default_tt_visi: Some(v), ..o })) by {
        reveal_strlit("default-tt-visi");
        reveal_strlit("grab");
        assert("default-tt-visi"@.len() != "grab"@.len());
        reveal_strlit("no-grab");
        assert("default-tt-visi"@.len() != "no-grab"@.len());
        reveal_strlit("ttyname");
        assert("default-tt-visi"@.len() != "ttyname"@.len());
        reveal_strlit("ttytype");
        assert("default-tt-visi"@.len() != "ttytype"@.len());
        reveal_strlit("ttyalert");
        assert("default-tt-visi"@.len() != "ttyalert"@.len());
        reveal_strlit("lc-ctype");
        assert("default-tt-visi"@.len() != "lc-ctype"@.len());
        reveal_strlit("lc-messages");
        assert("default-tt-visi"@.len() != "lc-messages"@.len());
        reveal_strlit("display");
        assert("default-tt-visi"@.len() != "display"@.len());
        reveal_strlit("owner");
        assert("default-tt-visi"@.len() != "owner"@.len());
        reveal_strlit("parent-wid");
        assert("default-tt-visi"@.len() != "parent-wid"@.len());
        reveal_strlit("touch-file");
        assert("default-tt-visi"@.len() != "touch-file"@.len());
        reveal_strlit("default-ok");
        assert("default-tt-visi"@.len() != "default-ok"@.len());
        reveal_strlit("default-cancel");
        assert("default-tt-visi"@.len() != "default-cancel"@.len());
        reveal_strlit("default-prompt");
        assert("default-tt-visi"@.len() != "default-prompt"@.len());
        reveal_strlit("default-pwmngr");
        assert("default-tt-visi"@.len() != "default-pwmngr"@.len());
        reveal_strlit("default-cf-visi");
        assert("default-tt-visi"@[8] != "default-cf-visi"@[8]);
    }
    assert(apply_option(o, "default-tt-hide"@, v) == Some(OptionsModel { default_tt_hide: Some(v), ..o })) by {
        reveal_strlit("default-tt-hide");
        reveal_strlit("grab");
        assert("default-tt-hide"@.len() != "grab"@.len());
        reveal_strlit("no-grab");
        assert("default-tt-hide"@.len() != "no-grab"@.len());
        reveal_strlit("ttyname");
        assert("default-tt-hide"@.len() != "ttyname"@.len());
        reveal_strlit("ttytype");
        assert("default-tt-hide"@.len() != "ttytype"@.len());
        reveal_strlit("ttyalert");
        assert("default-tt-hide"@.len() != "ttyalert"@.len());
        reveal_strlit("lc-ctype");
        assert("default-tt-hide"@.len() != "lc-ctype"@.len());
        reveal_strlit("lc-messages");
        assert("default-tt-hide"@.len() != "lc-messages"@.len());
        reveal_strlit("display");
        assert("default-tt-hide"@.len() != "display"@.len());
        reveal_strlit("owner");
        assert("default-tt-hide"@.len() != "owner"@.len());
        reveal_strlit("parent-wid");
        assert("default-tt-hide"@.len() != "parent-wid"@.len());
        reveal_strlit("touch-file");
        assert("default-tt-hide"@.len() != "touch-file"@.len());
        reveal_strlit("default-ok");
        assert("default-tt-hide"@.len() != "default-ok"@.len());
        reveal_strlit("default-cancel");
        assert("default-tt-hide"@.len() != "default-cancel"@.len());
        reveal_strlit("default-prompt");
        assert("default-tt-hide"@.len() != "default-prompt"@.len());
        reveal_strlit("default-pwmngr");
        assert("default-tt-hide"@.len() != "default-pwmngr"@.len());
        reveal_strlit("default-cf-visi");
        assert("default-tt-hide"@[8] != "default-cf-visi"@[8]);
        reveal_strlit("default-tt-visi");
        assert("default-tt-hide"@[11] != "default-tt-visi"@[11]);
    }
    assert(apply_option(o, "default-capshint"@, v) == Some(OptionsModel { default_capshint: Some(v), ..o })) by {
        reveal_strlit("default-capshint");
        reveal_strlit("grab");
        assert("default-capshint"@.len() != "grab"@.len());
        reveal_strlit("no-grab");
        assert("default-capshint"@.len() != "no-grab"@.len());
        reveal_strlit("ttyname");
        assert("default-capshint"@.len() != "ttyname"@.len());
        reveal_strlit("ttytype");
        assert("default-capshint"@.len() != "ttytype"@.len());
        reveal_strlit("ttyalert");
        assert("default-capshint"@.len() != "ttyalert"@.len());
        reveal_strlit("lc-ctype");
        assert("default-capshint"@.len() != "lc-ctype"@.len());
        reveal_strlit("lc-messages");
        assert("default-capshint"@.len() != "lc-messages"@.len());
        reveal_strlit("display");
        assert("default-capshint"@.len() != "display"@.len());
        reveal_strlit("owner");
        assert("default-capshint"@.len() != "owner"@.len());
        reveal_strlit("parent-wid");
        assert("default-capshint"@.len() != "parent-wid"@.len());
        reveal_strlit("touch-file");
        assert("default-capshint"@.len() != "touch-file"@.len());
        reveal_strlit("default-ok");
        assert("default-capshint"@.len() != "default-ok"@.len());
        reveal_strlit("default-cancel");
        assert("default-capshint"@.len() != "default-cancel"@.len());
        reveal_strlit("default-prompt");
        assert("default-capshint"@.len() != "default-prompt"@.len());
        reveal_strlit("default-pwmngr");
        assert("default-capshint"@.len() != "default-pwmngr"@.len());
        reveal_strlit("default-cf-visi");
        assert("default-capshint"@.len() != "default-cf-visi"@.len());
        reveal_strlit("default-tt-visi");
        assert("default-capshint"@.len() != "default-tt-visi"@.len());
        reveal_strlit("default-tt-hide");
        assert("default-capshint"@.len() != "default-tt-hide"@.len());
    }
    assert(apply_option(o, "allow-external-password-cache"@, v) == Some(OptionsModel { allow_external_password_cache: true, ..o })) by {
        reveal_strlit("allow-external-password-cache");
        reveal_strlit("grab");
        assert("allow-external-password-cache"@.len() != "grab"@.len());
        reveal_strlit("no-grab");
        assert("allow-external-password-cache"@.len() != "no-grab"@.len());
        reveal_strlit("ttyname");
        assert("allow-external-password-cache"@.len() != "ttyname"@.len());
        reveal_strlit("ttytype");
        assert("allow-external-password-cache"@.len() != "ttytype"@.len());
        reveal_strlit("ttyalert");
        assert("allow-external-password-cache"@.len() != "ttyalert"@.len());
        reveal_strlit("lc-ctype");
        assert("allow-external-password-cache"@.len() != "lc-ctype"@.len());
        reveal_strlit("lc-messages");
        assert("allow-external-password-cache"@.len() != "lc-messages"@.len());
        reveal_strlit("display");
        assert("allow-external-password-cache"@.len() != "display"@.len());
        reveal_strlit("owner");
        assert("allow-external-password-cache"@.len() != "owner"@.len());
        reveal_strlit("parent-wid");
        assert("allow-external-password-cache"@.len() != "parent-wid"@.len());
        reveal_strlit("touch-file");
        assert("allow-external-password-cache"@.len() != "touch-file"@.len());
        reveal_strlit("default-ok");
        assert("allow-external-password-cache"@.len() != "default-ok"@.len());
        reveal_strlit("default-cancel");
        assert("allow-external-password-cache"@.len() != "default-cancel"@.len());
        reveal_strlit("default-prompt");
        assert("allow-external-password-cache"@.len() != "default-prompt"@.len());
        reveal_strlit("default-pwmngr");
        assert("allow-external-password-cache"@.len() != "default-pwmngr"@.len());
        reveal_strlit("default-cf-visi");
        assert("allow-external-password-cache"@.len() != "default-cf-visi"@.len());
        reveal_strlit("default-tt-visi");
        assert("allow-external-password-cache"@.len() != "default-tt-visi"@.len());
        reveal_strlit("default-tt-hide");
        assert("allow-external-password-cache"@.len() != "default-tt-hide"@.len());
        reveal_strlit("default-capshint");
        assert("allow-external-password-cache"@.len() != "default-capshint"@.len());
    }
    assert(apply_option(o, "invisible-char"@, v) == Some(OptionsModel { invisible_char: Some(v), ..o })) by {
        reveal_strlit("invisible-char");
        reveal_strlit("grab");
        assert("invisible-char"@.len() != "grab"@.len());
        reveal_strlit("no-grab");
        assert("invisible-char"@.len() != "no-grab"@.len());
        reveal_strlit("ttyname");
        assert("invisible-char"@.len() != "ttyname"@.len());
        reveal_strlit("ttytype");
        assert("invisible-char"@.len() != "ttytype"@.len());
        reveal_strlit("ttyalert");
        assert("invisible-char"@.len() != "ttyalert"@.len());
        reveal_strlit("lc-ctype");
        assert("invisible-char"@.len() != "lc-ctype"@.len());
        reveal_strlit("lc-messages");
        assert("invisible-char"@.len() != "lc-messages"@.len());
        reveal_strlit("display");
        assert("invisible-char"@.len() != "display"@.len());
        reveal_strlit("owner");
        assert("invisible-char"@.len() != "owner"@.len());
        reveal_strlit("parent-wid");
        assert("invisible-char"@.len() != "parent-wid"@.len());
        reveal_strlit("touch-file");
        assert("invisible-char"@.len() != "touch-file"@.len());
        reveal_strlit("default-ok");
        assert("invisible-char"@.len() != "default-ok"@.len());
        reveal_strlit("default-cancel");
        assert("invisible-char"@[0] != "default-cancel"@[0]);
        reveal_strlit("default-prompt");
        assert("invisible-char"@[0] != "default-prompt"@[0]);
        reveal_strlit("default-pwmngr");
        assert("invisible-char"@[0] != "default-pwmngr"@[0]);
        reveal_strlit("default-cf-visi");
        assert("invisible-char"@.len() != "default-cf-visi"@.len());
        reveal_strlit("default-tt-visi");
        assert("invisible-char"@.len() != "default-tt-visi"@.len());
        reveal_strlit("default-tt-hide");
        assert("invisible-char"@.len() != "default-tt-hide"@.len());
        reveal_strlit("default-capshint");
        assert("invisible-char"@.len() != "default-capshint"@.len());
        reveal_strlit("allow-external-password-cache");
        assert("invisible-char"@.len() != "allow-external-password-cache"@.len());
    }
    assert(apply_option(o, "formatted-passphrase"@, v) == Some(OptionsModel { formatted_passphrase: true, ..o })) by {
        reveal_strlit("formatted-passphrase");
        reveal_strlit("grab");
        assert("formatted-passphrase"@.len() != "grab"@.len());
        reveal_strlit("no-grab");
        assert("formatted-passphrase"@.len() != "no-grab"@.len());
        reveal_strlit("ttyname");
        assert("formatted-passphrase"@.len() != "ttyname"@.len());
        reveal_strlit("ttytype");
        assert("formatted-passphrase"@.len() != "ttytype"@.len());
        reveal_strlit("ttyalert");
        assert("formatted-passphrase"@.len() != "ttyalert"@.len());
        reveal_strlit("lc-ctype");
        assert("formatted-passphrase"@.len() != "lc-ctype"@.len());
        reveal_strlit("lc-messages");
        assert("formatted-passphrase"@.len() != "lc-messages"@.len());
        reveal_strlit("display");
        assert("formatted-passphrase"@.len() != "display"@.len());
        reveal_strlit("owner");
        assert("formatted-passphrase"@.len() != "owner"@.len());
        reveal_strlit("parent-wid");
        assert("formatted-passphrase"@.len() != "parent-wid"@.len());
        reveal_strlit("touch-file");
        assert("formatted-passphrase"@.len() != "touch-file"@.len());
        reveal_strlit("default-ok");
        assert("formatted-passphrase"@.len() != "default-ok"@.len());
        reveal_strlit("default-cancel");
        assert("formatted-passphrase"@.len() != "default-cancel"@.len());
        reveal_strlit("default-prompt");
        assert("formatted-passphrase"@.len() != "default-prompt"@.len());
        reveal_strlit("default-pwmngr");
        assert("formatted-passphrase"@.len() != "default-pwmngr"@.len());
        reveal_strlit("default-cf-visi");
        assert("formatted-passphrase"@.len() != "default-cf-visi"@.len());
        reveal_strlit("default-tt-visi");
        assert("formatted-passphrase"@.len() != "default-tt-visi"@.len());
        reveal_strlit("default-tt-hide");
        assert("formatted-passphrase"@.len() != "default-tt-hide"@.len());
        reveal_strlit("default-capshint");
        assert("formatted-passphrase"@.len() != "default-capshint"@.len());
        reveal_strlit("allow-external-password-cache");
        assert("formatted-passphrase"@.len() != "allow-external-password-cache"@.len());
        reveal_strlit("invisible-char");
        assert("formatted-passphrase"@.len() != "invisible-char"@.len());
    }
    assert(apply_option(o, "constraints-enforce"@, v) == Some(OptionsModel { constraints_enforce: true, ..o })) by {
        reveal_strlit("constraints-enforce");
        reveal_strlit("grab");
        assert("constraints-enforce"@.len() != "grab"@.len());
        reveal_strlit("no-grab");
        assert("constraints-enforce"@.len() != "no-grab"@.len());
        reveal_strlit("ttyname");
        assert("constraints-enforce"@.len() != "ttyname"@.len());
        reveal_strlit("ttytype");
        assert("constraints-enforce"@.len() != "ttytype"@.len());
        reveal_strlit("ttyalert");
        assert("constraints-enforce"@.len() != "ttyalert"@.len());
        reveal_strlit("lc-ctype");
        assert("constraints-enforce"@.len() != "lc-ctype"@.len());
        reveal_strlit("lc-messages");
        assert("constraints-enforce"@.len() != "lc-messages"@.len());
        reveal_strlit("display");
        assert("constraints-enforce"@.len() != "display"@.len());
        reveal_strlit("owner");
        assert("constraints-enforce"@.len() != "owner"@.len());
        reveal_strlit("parent-wid");
        assert("constraints-enforce"@.len() != "parent-wid"@.len());
        reveal_strlit("touch-file");
        assert("constraints-enforce"@.len() != "touch-file"@.len());
        reveal_strlit("default-ok");
        assert("constraints-enforce"@.len() != "default-ok"@.len());
        reveal_strlit("default-cancel");
        assert("constraints-enforce"@.len() != "default-cancel"@.len());
        reveal_strlit("default-prompt");
        assert("constraints-enforce"@.len() != "default-prompt"@.len());
        reveal_strlit("default-pwmngr");
        assert("constraints-enforce"@.len() != "default-pwmngr"@.len());
        reveal_strlit("default-cf-visi");
        assert("constraints-enforce"@.len() != "default-cf-visi"@.len());
        reveal_strlit("default-tt-visi");
        assert("constraints-enforce"@.len() != "default-tt-visi"@.len());
        reveal_strlit("default-tt-hide");
        assert("constraints-enforce"@.len() != "default-tt-hide"@.len());
        reveal_strlit("default-capshint");
        assert("constraints-enforce"@.len() != "default-capshint"@.len());
        reveal_strlit("allow-external-password-cache");
        assert("constraints-enforce"@.len() != "allow-external-password-cache"@.len());
        reveal_strlit("invisible-char");
        assert("constraints-enforce"@.len() != "invisible-char"@.len());
        reveal_strlit("formatted-passphrase");
        assert("constraints-enforce"@.len() != "formatted-passphrase"@.len());
        reveal_strlit("formatted-passphrase-hint");
        assert("constraints-enforce"@.len() != "formatted-passphrase-hint"@.len());
    }
}

/// The remaining `OPTION` keys: `owner` and `parent-wid` store what their
/// value parses to, the hint and constraint texts store their percent-decoded
/// value, each in its own option only, and `debug-wait` and
/// `allow-emacs-prompt` are accepted and change nothing.
pub proof fn law_other_options_set_only_their_own_field(o: OptionsModel, v: Seq<char>)
    ensures
        apply_option(o, "owner"@, v) == Some(OptionsModel { owner: Some(parse_owner(v)), ..o }),
        apply_option(o, "parent-wid"@, v) == Some(OptionsModel { parent_wid: parse_i64(trim(v)), ..o }),
        apply_option(o, "formatted-passphrase-hint"@, v) == Some(OptionsModel { formatted_passphrase_hint: Some(decoded(v)), ..o }),
        apply_option(o, "constraints-hint-short"@, v) == Some(OptionsModel { constraints_hint_short: Some(decoded(v)), ..o }),
        apply_option(o, "constraints-hint-long"@, v) == Some(OptionsModel { constraints_hint_long: Some(decoded(v)), ..o }),
        apply_option(o, "constraints-error-title"@, v) == Some(OptionsModel { constraints_error_title: Some(decoded(v)), ..o }),
        apply_option(o, "debug-wait"@, v) == Some(o),
        apply_option(o, "allow-emacs-prompt"@, v) == Some(o),
{
    assert(apply_option(o, "owner"@, v) == Some(OptionsModel { owner: Some(parse_owner(v)), ..o })) by {
        reveal_strlit("owner");
        reveal_strlit("grab");
        assert("owner"@.len() != "grab"@.len());
        reveal_strlit("no-grab");
        assert("owner"@.len() != "no-grab"@.len());
        reveal_strlit("ttyname");
        assert("owner"@.len() != "ttyname"@.len());
        reveal_strlit("ttytype");
        assert("owner"@.len() != "ttytype"@.len());
        reveal_strlit("ttyalert");
        assert("owner"@.len() != "ttyalert"@.len());
        reveal_strlit("lc-ctype");
        assert("owner"@.len() != "lc-ctype"@.len());
        reveal_strlit("lc-messages");
        assert("owner"@.len() != "lc-messages"@.len());
        reveal_strlit("display");
        assert("owner"@.len() != "display"@.len());
    }
    assert(apply_option(o, "parent-wid"@, v) == Some(OptionsModel { parent_wid: parse_i64(trim(v)), ..o })) by {
        reveal_strlit("parent-wid");
        reveal_strlit("grab");
        assert("parent-wid"@.len() != "grab"@.len());
        reveal_strlit("no-grab");
        assert("parent-wid"@.len() != "no-grab"@.len());
        reveal_strlit("ttyname");
        assert("parent-wid"@.len() != "ttyname"@.len());
        reveal_strlit("ttytype");
        assert("parent-wid"@.len() != "ttytype"@.len());
        reveal_strlit("ttyalert");
        assert("parent-wid"@.len() != "ttyalert"@.len());
        reveal_strlit("lc-ctype");
        assert("parent-wid"@.len() != "lc-ctype"@.len());
        reveal_strlit("lc-messages");
        assert("parent-wid"@.len() != "lc-messages"@.len());
        reveal_strlit("display");
        assert("parent-wid"@.len() != "display"@.len());
        reveal_strlit("owner");
        assert("parent-wid"@.len() != "owner"@.len());
    }
    assert(apply_option(o, "formatted-passphrase-hint"@, v) == Some(OptionsModel { formatted_passphrase_hint: Some(decoded(v)), ..o })) by {
        reveal_strlit("formatted-passphrase-hint");
        reveal_strlit("grab");
        assert("formatted-passphrase-hint"@.len() != "grab"@.len());
        reveal_strlit("no-grab");
        assert("formatted-passphrase-hint"@.len() != "no-grab"@.len());
        reveal_strlit("ttyname");
        assert("formatted-passphrase-hint"@.len() != "ttyname"@.len());
        reveal_strlit("ttytype");
        assert("formatted-passphrase-hint"@.len() != "ttytype"@.len());
        reveal_strlit("ttyalert");
        assert("formatted-passphrase-hint"@.len() != "ttyalert"@.len());
        reveal_strlit("lc-ctype");
        assert("formatted-passphrase-hint"@.len() != "lc-ctype"@.len());
        reveal_strlit("lc-messages");
        assert("formatted-passphrase-hint"@.len() != "lc-messages"@.len());
        reveal_strlit("display");
        assert("formatted-passphrase-hint"@.len() != "display"@.len());
        reveal_strlit("owner");
        assert("formatted-passphrase-hint"@.len() != "owner"@.len());
        reveal_strlit("parent-wid");
        assert("formatted-passphrase-hint"@.len() != "parent-wid"@.len());
        reveal_strlit("touch-file");
        assert("formatted-passphrase-hint"@.len() != "touch-file"@.len());
        reveal_strlit("default-ok");
        assert("formatted-passphrase-hint"@.len() != "default-ok"@.len());
        reveal_strlit("default-cancel");
        assert("formatted-passphrase-hint"@.len() != "default-cancel"@.len());
        reveal_strlit("default-prompt");
        assert("formatted-passphrase-hint"@.len() != "default-prompt"@.len());
        reveal_strlit("default-pwmngr");
        assert("formatted-passphrase-hint"@.len() != "default-pwmngr"@.len());
        reveal_strlit("default-cf-visi");
        assert("formatted-passphrase-hint"@.len() != "default-cf-visi"@.len());
        reveal_strlit("default-tt-visi");
        assert("formatted-passphrase-hint"@.len() != "default-tt-visi"@.len());
        reveal_strlit("default-tt-hide");
        assert("formatted-passphrase-hint"@.len() != "default-tt-hide"@.len());
        reveal_strlit("default-capshint");
        assert("formatted-passphrase-hint"@.len() != "default-capshint"@.len());
        reveal_strlit("allow-external-password-cache");
        assert("formatted-passphrase-hint"@.len() != "allow-external-password-cache"@.len());
        reveal_strlit("invisible-char");
        assert("formatted-passphrase-hint"@.len() != "invisible-char"@.len());
        reveal_strlit("formatted-passphrase");
        assert("formatted-passphrase-hint"@.len() != "formatted-passphrase"@.len());
    }
    assert(apply_option(o, "constraints-hint-short"@, v) == Some(OptionsModel { constraints_hint_short: Some(decoded(v)), ..o })) by {
        reveal_strlit("constraints-hint-short");
        reveal_strlit("grab");
        assert("constraints-hint-short"@.len() != "grab"@.len());
        reveal_strlit("no-grab");
        assert("constraints-hint-short"@.len() != "no-grab"@.len());
        reveal_strlit("ttyname");
        assert("constraints-hint-short"@.len() != "ttyname"@.len());
        reveal_strlit("ttytype");
        assert("constraints-hint-short"@.len() != "ttytype"@.len());
        reveal_strlit("ttyalert");
        assert("constraints-hint-short"@.len() != "ttyalert"@.len());
        reveal_strlit("lc-ctype");
        assert("constraints-hint-short"@.len() != "lc-ctype"@.len());
        reveal_strlit("lc-messages");
        assert("constraints-hint-short"@.len() != "lc-messages"@.len());
        reveal_strlit("display");
        assert("constraints-hint-short"@.len() != "display"@.len());
        reveal_strlit("owner");
        assert("constraints-hint-short"@.len() != "owner"@.len());
        reveal_strlit("parent-wid");
        assert("constraints-hint-short"@.len() != "parent-wid"@.len());
        reveal_strlit("touch-file");
        assert("constraints-hint-short"@.len() != "touch-file"@.len());
        reveal_strlit("default-ok");
        assert("constraints-hint-short"@.len() != "default-ok"@.len());
        reveal_strlit("default-cancel");
        assert("constraints-hint-short"@.len() != "default-cancel"@.len());
        reveal_strlit("default-prompt");
        assert("constraints-hint-short"@.len() != "default-prompt"@.len());
        reveal_strlit("default-pwmngr");
        assert("constraints-hint-short"@.len() != "default-pwmngr"@.len());
        reveal_strlit("default-cf-visi");
        assert("constraints-hint-short"@.len() != "default-cf-visi"@.len());
        reveal_strlit("default-tt-visi");
        assert("constraints-hint-short"@.len() != "default-tt-visi"@.len());
        reveal_strlit("default-tt-hide");
        assert("constraints-hint-short"@.len() != "default-tt-hide"@.len());
        reveal_strlit("default-capshint");
        assert("constraints-hint-short"@.len() != "default-capshint"@.len());
        reveal_strlit("allow-external-password-cache");
        assert("constraints-hint-short"@.len() != "allow-external-password-cache"@.len());
        reveal_strlit("invisible-char");
        assert("constraints-hint-short"@.len() != "invisible-char"@.len());
        reveal_strlit("formatted-passphrase");
        assert("constraints-hint-short"@.len() != "formatted-passphrase"@.len());
        reveal_strlit("formatted-passphrase-hint");
        assert("constraints-hint-short"@.len() != "formatted-passphrase-hint"@.len());
        reveal_strlit("constraints-enforce");
        assert("constraints-hint-short"@.len() != "constraints-enforce"@.len());
    }
    assert(apply_option(o, "constraints-hint-long"@, v) == Some(OptionsModel { constraints_hint_long: Some(decoded(v)), ..o })) by {
        reveal_strlit("constraints-hint-long");
        reveal_strlit("grab");
        assert("constraints-hint-long"@.len() != "grab"@.len());
        reveal_strlit("no-grab");
        assert("constraints-hint-long"@.len() != "no-grab"@.len());
        reveal_strlit("ttyname");
        assert("constraints-hint-long"@.len() != "ttyname"@.len());
        reveal_strlit("ttytype");
        assert("constraints-hint-long"@.len() != "ttytype"@.len());
        reveal_strlit("ttyalert");
        assert("constraints-hint-long"@.len() != "ttyalert"@.len());
        reveal_strlit("lc-ctype");
        assert("constraints-hint-long"@.len() != "lc-ctype"@.len());
        reveal_strlit("lc-messages");
        assert("constraints-hint-long"@.len() != "lc-messages"@.len());
        reveal_strlit("display");
        assert("constraints-hint-long"@.len() != "display"@.len());
        reveal_strlit("owner");
        assert("constraints-hint-long"@.len() != "owner"@.len());
        reveal_strlit("parent-wid");
        assert("constraints-hint-long"@.len() != "parent-wid"@.len());
        reveal_strlit("touch-file");
        assert("constraints-hint-long"@.len() != "touch-file"@.len());
        reveal_strlit("default-ok");
        assert("constraints-hint-long"@.len() != "default-ok"@.len());
        reveal_strlit("default-cancel");
        assert("constraints-hint-long"@.len() != "default-cancel"@.len());
        reveal_strlit("default-prompt");
        assert("constraints-hint-long"@.len() != "default-prompt"@.len());
        reveal_strlit("default-pwmngr");
        assert("constraints-hint-long"@.len() != "default-pwmngr"@.len());
        reveal_strlit("default-cf-visi");
        assert("constraints-hint-long"@.len() != "default-cf-visi"@.len());
        reveal_strlit("default-tt-visi");
        assert("constraints-hint-long"@.len() != "default-tt-visi"@.len());
        reveal_strlit("default-tt-hide");
        assert("constraints-hint-long"@.len() != "default-tt-hide"@.len());
        reveal_strlit("default-capshint");
        assert("constraints-hint-long"@.len() != "default-capshint"@.len());
        reveal_strlit("allow-external-password-cache");
        assert("constraints-hint-long"@.len() != "allow-external-password-cache"@.len());
        reveal_strlit("invisible-char");
        assert("constraints-hint-long"@.len() != "invisible-char"@.len());
        reveal_strlit("formatted-passphrase");
        assert("constraints-hint-long"@.len() != "formatted-passphrase"@.len());
        reveal_strlit("formatted-passphrase-hint");
        assert("constraints-hint-long"@.len() != "formatted-passphrase-hint"@.len());
        reveal_strlit("constraints-enforce");
        assert("constraints-hint-long"@.len() != "constraints-enforce"@.len());
        reveal_strlit("constraints-hint-short");
        assert("constraints-hint-long"@.len() != "constraints-hint-short"@.len());
    }
    assert(apply_option(o, "constraints-error-title"@, v) == Some(OptionsModel { constraints_error_title: Some(decoded(v)), ..o })) by {
        reveal_strlit("constraints-error-title");
        reveal_strlit("grab");
        assert("constraints-error-title"@.len() != "grab"@.len());
        reveal_strlit("no-grab");
        assert("constraints-error-title"@.len() != "no-grab"@.len());
        reveal_strlit("ttyname");
        assert("constraints-error-title"@.len() != "ttyname"@.len());
        reveal_strlit("ttytype");
        assert("constraints-error-title"@.len() != "ttytype"@.len());
        reveal_strlit("ttyalert");
        assert("constraints-error-title"@.len() != "ttyalert"@.len());
        reveal_strlit("lc-ctype");
        assert("constraints-error-title"@.len() != "lc-ctype"@.len());
        reveal_strlit("lc-messages");
        assert("constraints-error-title"@.len() != "lc-messages"@.len());
        reveal_strlit("display");
        assert("constraints-error-title"@.len() != "display"@.len());
        reveal_strlit("owner");
        assert("constraints-error-title"@.len() != "owner"@.len());
        reveal_strlit("parent-wid");
        assert("constraints-error-title"@.len() != "parent-wid"@.len());
        reveal_strlit("touch-file");
        assert("constraints-error-title"@.len() != "touch-file"@.len());
        reveal_strlit("default-ok");
        assert("constraints-error-title"@.len() != "default-ok"@.len());
        reveal_strlit("default-cancel");
        assert("constraints-error-title"@.len() != "default-cancel"@.len());
        reveal_strlit("default-prompt");
        assert("constraints-error-title"@.len() != "default-prompt"@.len());
        reveal_strlit("default-pwmngr");
        assert("constraints-error-title"@.len() != "default-pwmngr"@.len());
        reveal_strlit("default-cf-visi");
        assert("constraints-error-title"@.len() != "default-cf-visi"@.len());
        reveal_strlit("default-tt-visi");
        assert("constraints-error-title"@.len() != "default-tt-visi"@.len());
        reveal_strlit("default-tt-hide");
        assert("constraints-error-title"@.len() != "default-tt-hide"@.len());
        reveal_strlit("default-capshint");
        assert("constraints-error-title"@.len() != "default-capshint"@.len());
        reveal_strlit("allow-external-password-cache");
        assert("constraints-error-title"@.len() != "allow-external-password-cache"@.len());
        reveal_strlit("invisible-char");
        assert("constraints-error-title"@.len() != "invisible-char"@.len());
        reveal_strlit("formatted-passphrase");
        assert("constraints-error-title"@.len() != "formatted-passphrase"@.len());
        reveal_strlit("formatted-passphrase-hint");
        assert("constraints-error-title"@.len() != "formatted-passphrase-hint"@.len());
        reveal_strlit("constraints-enforce");
        assert("constraints-error-title"@.len() != "constraints-enforce"@.len());
        reveal_strlit("constraints-hint-short");
        assert("constraints-error-title"@.len() != "constraints-hint-short"@.len());
        reveal_strlit("constraints-hint-long");
        assert("constraints-error-title"@.len() != "constraints-hint-long"@.len());
    }
    assert(apply_option(o, "debug-wait"@, v) == Some(o)) by {
        reveal_strlit("debug-wait");
        reveal_strlit("grab");
        assert("debug-wait"@.len() != "grab"@.len());
        reveal_strlit("no-grab");
        assert("debug-wait"@.len() != "no-grab"@.len());
        reveal_strlit("ttyname");
        assert("debug-wait"@.len() != "ttyname"@.len());
        reveal_strlit("ttytype");
        assert("debug-wait"@.len() != "ttytype"@.len());
        reveal_strlit("ttyalert");
        assert("debug-wait"@.len() != "ttyalert"@.len());
        reveal_strlit("lc-ctype");
        assert("debug-wait"@.len() != "lc-ctype"@.len());
        reveal_strlit("lc-messages");
        assert("debug-wait"@.len() != "lc-messages"@.len());
        reveal_strlit("display");
        assert("debug-wait"@.len() != "display"@.len());
        reveal_strlit("owner");
        assert("debug-wait"@.len() != "owner"@.len());
        reveal_strlit("parent-wid");
        assert("debug-wait"@[0] != "parent-wid"@[0]);
        reveal_strlit("touch-file");
        assert("debug-wait"@[0] != "touch-file"@[0]);
        reveal_strlit("default-ok");
        assert("debug-wait"@[2] != "default-ok"@[2]);
        reveal_strlit("default-cancel");
        assert("debug-wait"@.len() != "default-cancel"@.len());
        reveal_strlit("default-prompt");
        assert("debug-wait"@.len() != "default-prompt"@.len());
        reveal_strlit("default-pwmngr");
        assert("debug-wait"@.len() != "default-pwmngr"@.len());
        reveal_strlit("default-cf-visi");
        assert("debug-wait"@.len() != "default-cf-visi"@.len());
        reveal_strlit("default-tt-visi");
        assert("debug-wait"@.len() != "default-tt-visi"@.len());
        reveal_strlit("default-tt-hide");
        assert("debug-wait"@.len() != "default-tt-hide"@.len());
        reveal_strlit("default-capshint");
        assert("debug-wait"@.len() != "default-capshint"@.len());
        reveal_strlit("allow-external-password-cache");
        assert("debug-wait"@.len() != "allow-external-password-cache"@.len());
        reveal_strlit("invisible-char");
        assert("debug-wait"@.len() != "invisible-char"@.len());
        reveal_strlit("formatted-passphrase");
        assert("debug-wait"@.len() != "formatted-passphrase"@.len());
        reveal_strlit("formatted-passphrase-hint");
        assert("debug-wait"@.len() != "formatted-passphrase-hint"@.len());
        reveal_strlit("constraints-enforce");
        assert("debug-wait"@.len() != "constraints-enforce"@.len());
        reveal_strlit("constraints-hint-short");
        assert("debug-wait"@.len() != "constraints-hint-short"@.len());
        reveal_strlit("constraints-hint-long");
        assert("debug-wait"@.len() != "constraints-hint-long"@.len());
        reveal_strlit("constraints-error-title");
        assert("debug-wait"@.len() != "constraints-error-title"@.len());
    }
    assert(apply_option(o, "allow-emacs-prompt"@, v) == Some(o)) by {
        reveal_strlit("allow-emacs-prompt");
        reveal_strlit("grab");
        assert("allow-emacs-prompt"@.len() != "grab"@.len());
        reveal_strlit("no-grab");
        assert("allow-emacs-prompt"@.len() != "no-grab"@.len());
        reveal_strlit("ttyname");
        assert("allow-emacs-prompt"@.len() != "ttyname"@.len());
        reveal_strlit("ttytype");
        assert("allow-emacs-prompt"@.len() != "ttytype"@.len());
        reveal_strlit("ttyalert");
        assert("allow-emacs-prompt"@.len() != "ttyalert"@.len());
        reveal_strlit("lc-ctype");
        assert("allow-emacs-prompt"@.len() != "lc-ctype"@.len());
        reveal_strlit("lc-messages");
        assert("allow-emacs-prompt"@.len() != "lc-messages"@.len());
        reveal_strlit("display");
        assert("allow-emacs-prompt"@.len() != "display"@.len());
        reveal_strlit("owner");
        assert("allow-emacs-prompt"@.len() != "owner"@.len());
        reveal_strlit("parent-wid");
        assert("allow-emacs-prompt"@.len() != "parent-wid"@.len());
        reveal_strlit("touch-file");
        assert("allow-emacs-prompt"@.len() != "touch-file"@.len());
        reveal_strlit("default-ok");
        assert("allow-emacs-prompt"@.len() != "default-ok"@.len());
        reveal_strlit("default-cancel");
        assert("allow-emacs-prompt"@.len() != "default-cancel"@.len());
        reveal_strlit("default-prompt");
        assert("allow-emacs-prompt"@.len() != "default-prompt"@.len());
        reveal_strlit("default-pwmngr");
        assert("allow-emacs-prompt"@.len() != "default-pwmngr"@.len());
        reveal_strlit("default-cf-visi");
        assert("allow-emacs-prompt"@.len() != "default-cf-visi"@.len());
        reveal_strlit("default-tt-visi");
        assert("allow-emacs-prompt"@.len() != "default-tt-visi"@.len());
        reveal_strlit("default-tt-hide");
        assert("allow-emacs-prompt"@.len() != "default-tt-hide"@.len());
        reveal_strlit("default-capshint");
        assert("allow-emacs-prompt"@.len() != "default-capshint"@.len());
        reveal_strlit("allow-external-password-cache");
        assert("allow-emacs-prompt"@.len() != "allow-external-password-cache"@.len());
        reveal_strlit("invisible-char");
        assert("allow-emacs-prompt"@.len() != "invisible-char"@.len());
        reveal_strlit("formatted-passphrase");
        assert("allow-emacs-prompt"@.len() != "formatted-passphrase"@.len());
        reveal_strlit("formatted-passphrase-hint");
        assert("allow-emacs-prompt"@.len() != "formatted-passphrase-hint"@.len());
        reveal_strlit("constraints-enforce");
        assert("allow-emacs-prompt"@.len() != "constraints-enforce"@.len());
        reveal_strlit("constraints-hint-short");
        assert("allow-emacs-prompt"@.len() != "constraints-hint-short"@.len());
        reveal_strlit("constraints-hint-long");
        assert("allow-emacs-prompt"@.len() != "constraints-hint-long"@.len());
        reveal_strlit("constraints-error-title");
        assert("allow-emacs-prompt"@.len() != "constraints-error-title"@.len());
        reveal_strlit("debug-wait");
        assert("allow-emacs-prompt"@.len() != "debug-wait"@.len());
    }
}

/// An `OPTION` key that is none of those the command knows is refused (the
/// command answers a parameter error), and every known key is accepted.
pub proof fn law_unknown_options_are_refused(o: OptionsModel, key: Seq<char>, v: Seq<char>)
    ensures
        apply_option(o, key, v) is None <==> !({
            ||| key == "grab"@
            ||| key == "no-grab"@
            ||| key == "ttyname"@
            ||| key == "ttytype"@
            ||| key == "ttyalert"@
            ||| key == "lc-ctype"@
            ||| key == "lc-messages"@
            ||| key == "display"@
            ||| key == "owner"@
            ||| key == "parent-wid"@
            ||| key == "touch-file"@
            ||| key == "default-ok"@
            ||| key == "default-cancel"@
            ||| key == "default-prompt"@
            ||| key == "default-pwmngr"@
            ||| key == "default-cf-visi"@
            ||| key == "default-tt-visi"@
            ||| key == "default-tt-hide"@
            ||| key == "default-capshint"@
            ||| key == "allow-external-password-cache"@
            ||| key == "invisible-char"@
            ||| key == "formatted-passphrase"@
            ||| key == "formatted-passphrase-hint"@
            ||| key == "constraints-enforce"@
            ||| key == "constraints-hint-short"@
            ||| key == "constraints-hint-long"@
            ||| key == "constraints-error-title"@
            ||| key == "debug-wait"@
            ||| key == "allow-emacs-prompt"@
        }),
{
}

/// The command word `OPTION` names the option command.
proof fn lemma_word_option()
    ensures
        is_word("OPTION"@),
        "OPTION"@.len() > 0,
        "OPTION"@[0] != '#',
        command_of(ascii_upper("OPTION"@)) == Command::Option,
{
    reveal_strlit("OPTION");
    assert(ascii_upper("OPTION"@) =~= "OPTION"@);
    reveal_strlit("BYE");
    assert("OPTION"@.len() != "BYE"@.len());
    reveal_strlit("RESET");
    assert("OPTION"@.len() != "RESET"@.len());
    reveal_strlit("NOP");
    assert("OPTION"@.len() != "NOP"@.len());
    reveal_strlit("CANCEL");
    assert("OPTION"@[0] != "CANCEL"@[0]);
    reveal_strlit("END");
    assert("OPTION"@.len() != "END"@.len());
}

/// In a key without `c`, then `c`, the first `c` is the one after the key.
proof fn lemma_find_after_key(k: Seq<char>, c: char, rest: Seq<char>)
    requires
        forall|i: int| 0 <= i < k.len() ==> #[trigger] k[i] != c,
    ensures
        find(k + seq![c] + rest, c) == Some(k.len() as int),
    decreases k.len(),
{
    let x = k + seq![c] + rest;
    if k.len() == 0 {
        assert(x[0] == c);
    } else {
        assert(x[0] == k[0]);
        assert(x.drop_first() =~= k.drop_first() + seq![c] + rest);
        assert forall|i: int| 0 <= i < k.drop_first().len() implies #[trigger] k.drop_first()[i]
            != c by {
            assert(k.drop_first()[i] == k[i + 1]);
        }
        lemma_find_after_key(k.drop_first(), c, rest);
    }
}

/// A text without `c` has no first `c`.
proof fn lemma_find_none(s: Seq<char>, c: char)
    requires
        forall|i: int| 0 <= i < s.len() ==> #[trigger] s[i] != c,
    ensures
        find(s, c) is None,
    decreases s.len(),
{
    if s.len() > 0 {
        assert forall|i: int| 0 <= i < s.drop_first().len() implies #[trigger] s.drop_first()[i]
            != c by {
            assert(s.drop_first()[i] == s[i + 1]);
        }
        lemma_find_none(s.drop_first(), c);
    }
}

/// A text with no whitespace at either end is its own trim.
proof fn lemma_trim_of_trimmed(s: Seq<char>)
    requires
        s.len() == 0 || (!is_ws(s[0]) && !is_ws(s.last())),
    ensures
        trim(s) == s,
{
    assert(trim_start(s) == s);
}

/// How `OPTION` splits a plain key and a trimmed value.
proof fn lemma_option_key_value(k: Seq<char>, v: Seq<char>)
    requires
        k.len() > 0,
        !(k.len() >= 2 && k[0] == '-' && k[1] == '-'),
        forall|i: int| 0 <= i < k.len() ==> #[trigger] k[i] != '=' && !is_ws(k[i]),
        v.len() == 0 || (!is_ws(v[0]) && !is_ws(v.last())),
    ensures
        option_key_value(k + seq!['='] + v) == (k, v),
        option_key_value(seq!['-', '-'] + (k + seq!['='] + v)) == (k, v),
        (forall|i: int| 0 <= i < v.len() ==> #[trigger] v[i] != '=') ==> option_key_value(
            k + seq![' '] + v,
        ) == (k, v),
{
    let r = k + seq!['='] + v;
    assert(r[0] == k[0]);
    assert(strip_dashes(r) == r) by {
        if r.len() >= 2 {
            if k.len() >= 2 {
                assert(r[1] == k[1]);
            } else {
                assert(r[1] == '=');
            }
        }
    }
    assert forall|i: int| 0 <= i < k.len() implies #[trigger] k[i] != '=' by {}
    lemma_find_after_key(k, '=', v);
    assert(r.take(k.len() as int) =~= k);
    assert(r.skip(k.len() + 1int) =~= v);
    assert(!is_ws(k[0]) && !is_ws(k.last()));
    lemma_trim_of_trimmed(k);
    lemma_trim_of_trimmed(v);
    let dr = seq!['-', '-'] + r;
    assert(dr.skip(2) =~= r);
    assert(strip_dashes(dr) == strip_dashes(r));
    if forall|i: int| 0 <= i < v.len() ==> #[trigger] v[i] != '=' {
        let r2 = k + seq![' '] + v;
        assert(r2[0] == k[0]);
        assert(strip_dashes(r2) == r2) by {
            if r2.len() >= 2 {
                if k.len() >= 2 {
                    assert(r2[1] == k[1]);
                } else {
                    assert(r2[1] == ' ');
                }
            }
        }
        assert forall|i: int| 0 <= i < r2.len() implies #[trigger] r2[i] != '=' by {
            if i < k.len() {
                assert(r2[i] == k[i]);
            } else if i > k.len() {
                assert(r2[i] == v[i - k.len() - 1]);
            }
        }
        lemma_find_none(r2, '=');
        assert forall|i: int| 0 <= i < k.len() implies #[trigger] k[i] != ' ' by {
            assert(is_ws(' '));
        }
        lemma_find_after_key(k, ' ', v);
        assert(r2.take(k.len() as int) =~= k);
        assert(r2.skip(k.len() + 1int) =~= v);
    }
}

/// An `OPTION key=value` line (the key may carry a `--` prefix, and a value
/// without `=` may follow a space instead) hands its key and its value,
/// exactly, to the option table, whose answer it gives: OK with the option
/// set for a known key, the parameter error with nothing changed for an
/// unknown one.
pub proof fn law_option_line_passes_key_and_value(
    st: StateModel,
    host: Option<HostInfo>,
    a: Answers,
    k: Seq<char>,
    v: Seq<char>,
)
    requires
        k.len() > 0,
        !(k.len() >= 2 && k[0] == '-' && k[1] == '-'),
        forall|i: int| 0 <= i < k.len() ==> #[trigger] k[i] != '=' && !is_ws(k[i]),
        v.len() == 0 || (!is_ws(v[0]) && !is_ws(v.last())),
    ensures
        option_key_value(k + seq!['='] + v) == (k, v),
        option_key_value(seq!['-', '-'] + (k + seq!['='] + v)) == (k, v),
        (forall|i: int| 0 <= i < v.len() ==> #[trigger] v[i] != '=') ==> option_key_value(
            k + seq![' '] + v,
        ) == (k, v),
        respond(st, host, "OPTION"@ + seq![' '] + (k + seq!['='] + v), a) == match apply_option(
            st.options,
            k,
            v,
        ) {
            Some(o) => reply(with_options(st, o), ok_line()),
            None => reply(st, err_bytes(ASS_PARAMETER, "IPC parameter error"@)),
        },
{
    lemma_option_key_value(k, v);
    let r = k + seq!['='] + v;
    let tail = seq![' '] + r;
    assert(r[0] == k[0]);
    assert(tail[1] == r[0]);
    assert(tail.last() == r.last()) by {
        assert(r.last() == r[r.len() - 1]);
    }
    if v.len() > 0 {
        assert(r.last() == v.last());
        assert(is_ws('\r') && is_ws('\n'));
    } else {
        assert(r.last() == '=');
    }
    lemma_word_option();
    lemma_command_line(st, host, a, "OPTION"@, tail);
    assert(tail.skip(1) =~= r);
    assert("OPTION"@ + seq![' '] + r =~= "OPTION"@ + tail);
}

/// gpg-agent's usual labels, `OK` and `Cancel` defaults sent one after the
/// other, both stay: the second does not overwrite the first, and with no
/// label of the prompt's own they are the buttons' labels.
pub proof fn law_default_labels_both_stay(o: OptionsModel, r: RequestModel, ok: Seq<char>, cancel: Seq<char>)
    requires
        r.ok is None,
        r.cancel is None,
    ensures
        ({
            let o1 = apply_option(o, "default-ok"@, ok).unwrap();
            let o2 = apply_option(o1, "default-cancel"@, cancel).unwrap();
            &&& o2.default_ok == Some(ok)
            &&& o2.default_cancel == Some(cancel)
            &&& spec_effective_ok(StateModel { options: o2, request: r }) == ok
            &&& spec_effective_cancel(StateModel { options: o2, request: r }) == cancel
        }),
{
    law_each_option_sets_only_its_own_field(o, ok);
    law_each_option_sets_only_its_own_field(apply_option(o, "default-ok"@, ok).unwrap(), cancel);
}

/// The index of the first space byte.
pub open spec fn first_space(b: Seq<u8>) -> Option<int>
    decreases b.len(),
{
    if b.len() == 0 {
        None
    } else if b[0] == 32 {
        Some(0)
    } else {
        match first_space(b.drop_first()) {
            Some(i) => Some(i + 1),
            None => None,
        }
    }
}

pub proof fn lemma_first_space(b: Seq<u8>)
    ensures
        first_space(b) matches Some(i) ==> 0 <= i < b.len() && b[i] == 32,
    decreases b.len(),
{
    if b.len() > 0 {
        lemma_first_space(b.drop_first());
    }
}

/// The space-separated fields of a line, as `split(' ')` gives them.
pub open spec fn space_fields(b: Seq<u8>) -> Seq<Seq<u8>>
    decreases b.len(),
{
    match first_space(b) {
        Some(i) => {
            proof {
                lemma_first_space(b);
            }
            seq![b.take(i)] + space_fields(b.skip(i + 1))
        },
        None => seq![b],
    }
}

/// No byte of `b` is a space.
pub open spec fn no_space(b: Seq<u8>) -> bool {
    forall|i: int| 0 <= i < b.len() ==> #[trigger] b[i] != 32
}

proof fn lemma_first_space_after_word(w: Seq<u8>, rest: Seq<u8>)
    requires
        no_space(w),
    ensures
        first_space(w + seq![32u8] + rest) == Some(w.len() as int),
    decreases w.len(),
{
    let x = w + seq![32u8] + rest;
    if w.len() == 0 {
        assert(x[0] == 32);
    } else {
        assert(x[0] == w[0]);
        assert(x.drop_first() =~= w.drop_first() + seq![32u8] + rest);
        assert(no_space(w.drop_first())) by {
            assert forall|i: int| 0 <= i < w.drop_first().len() implies #[trigger] w.drop_first()[i]
                != 32 by {
                assert(w.drop_first()[i] == w[i + 1]);
            }
        }
        lemma_first_space_after_word(w.drop_first(), rest);
    }
}

/// A word without spaces, then a space, is the first field.
pub proof fn lemma_fields_after_word(w: Seq<u8>, rest: Seq<u8>)
    requires
        no_space(w),
    ensures
        space_fields(w + seq![32u8] + rest) == seq![w] + space_fields(rest),
{
    let x = w + seq![32u8] + rest;
    lemma_first_space_after_word(w, rest);
    assert(x.take(w.len() as int) =~= w);
    assert(x.skip(w.len() + 1int) =~= rest);
}

/// A text without a space character encodes to bytes without a space.
pub proof fn lemma_encode_no_space(t: Seq<char>)
    requires
        forall|i: int| 0 <= i < t.len() ==> #[trigger] t[i] != ' ',
    ensures
        no_space(encode_utf8(t)),
    decreases t.len(),
{
    if t.len() > 0 {
        let c = t[0];
        let v = c as u32;
        vstd::utf8::char_is_scalar(c);
        let e = vstd::utf8::encode_scalar(v);
        assert forall|i: int| 0 <= i < e.len() implies #[trigger] e[i] != 32 by {
            if vstd::utf8::has_width_1_encoding(v) {
                let b = vstd::utf8::leading_byte_width_1(v);
                assert(t[0] != ' ');
                if v == 32 {
                    vstd::utf8::char_u32_cast(c, v);
                    vstd::utf8::char_u32_cast(' ', 32u32);
                    assert(false);
                }
                assert(b != 32) by (bit_vector)
                    requires
                        v <= 0x7F,
                        v != 32,
                        b == (v & 0x7F) as u8,
                ;
            } else if vstd::utf8::has_width_2_encoding(v) {
                let b0 = vstd::utf8::leading_byte_width_2(v);
                let b1 = vstd::utf8::last_continuation_byte(v);
                assert(b0 >= 128 && b1 >= 128) by (bit_vector)
                    requires
                        b0 == 0xC0 | ((v >> 6) & 0x1F) as u8,
                        b1 == 0x80 | (v & 0x3F) as u8,
                ;
            } else if vstd::utf8::has_width_3_encoding(v) {
                let b0 = vstd::utf8::leading_byte_width_3(v);
                let b1 = vstd::utf8::second_last_continuation_byte(v);
                let b2 = vstd::utf8::last_continuation_byte(v);
                assert(b0 >= 128 && b1 >= 128 && b2 >= 128) by (bit_vector)
                    requires
                        b0 == 0xE0 | ((v >> 12) & 0x0F) as u8,
                        b1 == 0x80 | ((v >> 6) & 0x3F) as u8,
                        b2 == 0x80 | (v & 0x3F) as u8,
                ;
            } else {
                let b0 = vstd::utf8::leading_byte_width_4(v);
                let b1 = vstd::utf8::third_last_continuation_byte(v);
                let b2 = vstd::utf8::second_last_continuation_byte(v);
                let b3 = vstd::utf8::last_continuation_byte(v);
                assert(b0 >= 128 && b1 >= 128 && b2 >= 128 && b3 >= 128) by (bit_vector)
                    requires
                        b0 == 0xF0 | ((v >> 18) & 0x7) as u8,
                        b1 == 0x80 | ((v >> 12) & 0x3F) as u8,
                        b2 == 0x80 | ((v >> 6) & 0x3F) as u8,
                        b3 == 0x80 | (v & 0x3F) as u8,
                ;
            }
        }
        assert forall|i: int| 0 <= i < t.drop_first().len() implies #[trigger] t.drop_first()[i]
            != ' ' by {
            assert(t.drop_first()[i] == t[i + 1]);
        }
        lemma_encode_no_space(t.drop_first());
        let rest = encode_utf8(t.drop_first());
        assert(encode_utf8(t) == e + rest);
        assert forall|i: int| 0 <= i < (e + rest).len() implies #[trigger] (e + rest)[i] != 32 by {
            if i < e.len() {
                assert((e + rest)[i] == e[i]);
            } else {
                assert((e + rest)[i] == rest[i - e.len()]);
            }
        }
    }
}

/// An option value without a space character, or a dash, has no space byte.
pub open spec fn spaceless(o: Option<Seq<char>>) -> bool {
    match o {
        Some(t) => forall|i: int| 0 <= i < t.len() ==> #[trigger] t[i] != ' ',
        None => true,
    }
}

proof fn lemma_or_dash_no_space(o: Option<Seq<char>>)
    requires
        spaceless(o),
    ensures
        no_space(or_dash(o)),
{
    match o {
        Some(t) => lemma_encode_no_space(t),
        None => {},
    }
}

/// Decimal digits hold no space.
proof fn lemma_decimal_no_space(n: nat)
    ensures
        no_space(decimal(n)),
    decreases n,
{
    if n >= 10 {
        lemma_decimal_no_space(n / 10);
        let d = decimal(n / 10);
        let x = d + seq![(48 + n % 10) as u8];
        assert forall|i: int| 0 <= i < x.len() implies #[trigger] x[i] != 32 by {
            if i < d.len() {
                assert(x[i] == d[i]);
            }
        }
    }
}

/// `ttyinfo`, grouped field by field.
proof fn lemma_ttyinfo_shape(o: OptionsModel, h: HostInfo)
    ensures
        ttyinfo(o, h) == or_dash(o.ttyname) + seq![32u8] + (or_dash(o.ttytype) + seq![32u8] + (
        or_dash(o.display) + seq![32u8] + (seq![45u8] + seq![32u8] + (decimal(h.euid as nat)
            + seq![47u8] + decimal(h.egid as nat) + seq![32u8, 45])))),
{
    let sp = seq![32u8];
    let a = or_dash(o.ttyname);
    let b = or_dash(o.ttytype);
    let c = or_dash(o.display);
    let de = decimal(h.euid as nat);
    let dg = decimal(h.egid as nat);
    let mid = seq![32u8, 45, 32];
    let tail = de + seq![47u8] + dg + seq![32u8, 45];
    let q = a + sp + b + sp + c;
    let p = q + mid;
    // ttyinfo == p + tail
    vstd::seq_lib::lemma_concat_associative(p, de, seq![47u8]);
    vstd::seq_lib::lemma_concat_associative(p, de + seq![47u8], dg);
    vstd::seq_lib::lemma_concat_associative(p, de + seq![47u8] + dg, seq![32u8, 45]);
    assert(ttyinfo(o, h) == p + tail);
    // p + tail == q + (mid + tail)
    vstd::seq_lib::lemma_concat_associative(q, mid, tail);
    let r3 = seq![45u8] + sp + tail;
    assert(mid + tail =~= sp + r3);
    // q + (sp + r3) == a + sp + (b + sp + (c + sp + r3))
    let r2 = c + sp + r3;
    let r1 = b + sp + r2;
    vstd::seq_lib::lemma_concat_associative(q, sp, r3);
    vstd::seq_lib::lemma_concat_associative(a + sp + b + sp, c, sp + r3);
    vstd::seq_lib::lemma_concat_associative(c, sp, r3);
    assert(q + (sp + r3) == a + sp + b + sp + r2);
    vstd::seq_lib::lemma_concat_associative(a + sp + b, sp, r2);
    vstd::seq_lib::lemma_concat_associative(a + sp, b, sp + r2);
    vstd::seq_lib::lemma_concat_associative(b, sp, r2);
    assert(a + sp + b + sp + r2 == a + sp + r1);
}

/// `GETINFO ttyinfo` reports six space-separated fields: the terminal name,
/// the terminal type and the display, in that order, each `-` when unset;
/// then `-`, the effective user and group ids as `uid/gid`, and `-`.
#[verifier::rlimit(80)]
#[verifier::spinoff_prover]
pub proof fn law_ttyinfo_fields(o: OptionsModel, h: HostInfo)
    requires
        spaceless(o.ttyname),
        spaceless(o.ttytype),
        spaceless(o.display),
    ensures
        space_fields(ttyinfo(o, h)).len() == 6,
        space_fields(ttyinfo(o, h))[0] == or_dash(o.ttyname),
        space_fields(ttyinfo(o, h))[1] == or_dash(o.ttytype),
        space_fields(ttyinfo(o, h))[2] == or_dash(o.display),
        space_fields(ttyinfo(o, h))[3] == seq![45u8],
        space_fields(ttyinfo(o, h))[4] == decimal(h.euid as nat) + seq![47u8] + decimal(
            h.egid as nat,
        ),
        space_fields(ttyinfo(o, h))[5] == seq![45u8],
{
    let a = or_dash(o.ttyname);
    let b = or_dash(o.ttytype);
    let c = or_dash(o.display);
    lemma_or_dash_no_space(o.ttyname);
    lemma_or_dash_no_space(o.ttytype);
    lemma_or_dash_no_space(o.display);
    let tail = decimal(h.euid as nat) + seq![47u8] + decimal(h.egid as nat) + seq![32u8, 45];
    let d = seq![45u8];
    let r3 = d + seq![32u8] + tail;
    let r2 = c + seq![32u8] + r3;
    let r1 = b + seq![32u8] + r2;
    lemma_ttyinfo_shape(o, h);
    assert(no_space(d));
    lemma_fields_after_word(d, tail);
    let f3 = space_fields(r3);
    assert(f3 == seq![d] + space_fields(tail));
    lemma_fields_after_word(c, r3);
    let f2 = space_fields(r2);
    assert(f2 == seq![c] + f3);
    lemma_fields_after_word(b, r2);
    let f1 = space_fields(r1);
    assert(f1 == seq![b] + f2);
    lemma_fields_after_word(a, r1);
    let f0 = space_fields(ttyinfo(o, h));
    assert(f0 == seq![a] + f1);
    assert(f0[1] == f1[0]);
    assert(f0[2] == f2[0]);
    assert(f0[3] == f3[0]);
    let ids = decimal(h.euid as nat) + seq![47u8] + decimal(h.egid as nat);
    lemma_decimal_no_space(h.euid as nat);
    lemma_decimal_no_space(h.egid as nat);
    assert(no_space(ids)) by {
        let de = decimal(h.euid as nat);
        assert forall|i: int| 0 <= i < ids.len() implies #[trigger] ids[i] != 32 by {
            if i < de.len() {
                assert(ids[i] == de[i]);
            } else if i > de.len() {
                assert(ids[i] == decimal(h.egid as nat)[i - de.len() - 1]);
            }
        }
    }
    assert(tail =~= ids + seq![32u8] + seq![45u8]);
    lemma_fields_after_word(ids, seq![45u8]);
    assert(first_space(seq![45u8]) is None) by {
        let one = seq![45u8];
        assert(one[0] == 45);
        assert(one.drop_first() =~= Seq::<u8>::empty());
        assert(first_space(Seq::<u8>::empty()) is None);
    }
    assert(space_fields(seq![45u8]) == seq![seq![45u8]]);
    let f4 = space_fields(tail);
    assert(f4 == seq![ids] + seq![seq![45u8]]);
    assert(f0[4] == f4[0]);
    assert(f0[5] == f4[1]);
}

/// The command word `GETINFO` names the information command.
proof fn lemma_word_getinfo()
    ensures
        is_word("GETINFO"@),
        "GETINFO"@.len() > 0,
        "GETINFO"@[0] != '#',
        command_of(ascii_upper("GETINFO"@)) == Command::GetInfo,
{
    reveal_strlit("GETINFO");
    assert(ascii_upper("GETINFO"@) =~= "GETINFO"@);
    reveal_strlit("BYE");
    assert("GETINFO"@.len() != "BYE"@.len());
    reveal_strlit("RESET");
    assert("GETINFO"@.len() != "RESET"@.len());
    reveal_strlit("NOP");
    assert("GETINFO"@.len() != "NOP"@.len());
    reveal_strlit("CANCEL");
    assert("GETINFO"@.len() != "CANCEL"@.len());
    reveal_strlit("END");
    assert("GETINFO"@.len() != "END"@.len());
    reveal_strlit("OPTION");
    assert("GETINFO"@.len() != "OPTION"@.len());
}

/// `GETINFO ttyinfo` answers, as its data, the `ttyinfo` line of the
/// session's options and the host's ids, then OK, and changes nothing.
pub proof fn law_getinfo_ttyinfo_answers_the_line(st: StateModel, h: HostInfo, a: Answers)
    ensures
        respond(st, Some(h), "GETINFO ttyinfo"@, a) == reply(
            st,
            data_lines(ttyinfo(st.options, h)) + ok_line(),
        ),
{
    reveal_strlit("GETINFO ttyinfo");
    reveal_strlit("GETINFO");
    reveal_strlit("ttyinfo");
    let tail = seq![' '] + "ttyinfo"@;
    assert("GETINFO ttyinfo"@ =~= "GETINFO"@ + tail);
    assert(tail[1] == 't');
    assert(tail.last() == 'o');
    lemma_word_getinfo();
    lemma_command_line(st, Some(h), a, "GETINFO"@, tail);
    assert(tail.skip(1) =~= "ttyinfo"@);
    assert(trim_start("ttyinfo"@) == "ttyinfo"@);
    assert(trim_end("ttyinfo"@) == "ttyinfo"@);
    reveal_strlit("version");
    assert("ttyinfo"@[0] != "version"@[0]);
    reveal_strlit("pid");
    assert("ttyinfo"@.len() != "pid"@.len());
    reveal_strlit("flavor");
    assert("ttyinfo"@.len() != "flavor"@.len());
}

/// The command word `SETKEYINFO` names the key-identifier command.
proof fn lemma_setkeyinfo_word()
    ensures
        is_word("SETKEYINFO"@),
        "SETKEYINFO"@.len() > 0,
        command_of(ascii_upper("SETKEYINFO"@)) == Command::SetKeyInfo,
{
    reveal_strlit("SETKEYINFO");
    assert(ascii_upper("SETKEYINFO"@) =~= "SETKEYINFO"@);
    reveal_strlit("BYE");
    assert("SETKEYINFO"@.len() != "BYE"@.len());
    reveal_strlit("RESET");
    assert("SETKEYINFO"@.len() != "RESET"@.len());
    reveal_strlit("NOP");
    assert("SETKEYINFO"@.len() != "NOP"@.len());
    reveal_strlit("CANCEL");
    assert("SETKEYINFO"@.len() != "CANCEL"@.len());
    reveal_strlit("END");
    assert("SETKEYINFO"@.len() != "END"@.len());
    reveal_strlit("OPTION");
    assert("SETKEYINFO"@.len() != "OPTION"@.len());
    reveal_strlit("GETINFO");
    assert("SETKEYINFO"@.len() != "GETINFO"@.len());
    reveal_strlit("GETPIN");
    assert("SETKEYINFO"@.len() != "GETPIN"@.len());
    reveal_strlit("CONFIRM");
    assert("SETKEYINFO"@.len() != "CONFIRM"@.len());
    reveal_strlit("MESSAGE");
    assert("SETKEYINFO"@.len() != "MESSAGE"@.len());
    reveal_strlit("SETDESC");
    assert("SETKEYINFO"@.len() != "SETDESC"@.len());
    reveal_strlit("SETPROMPT");
    assert("SETKEYINFO"@.len() != "SETPROMPT"@.len());
    reveal_strlit("SETTITLE");
    assert("SETKEYINFO"@.len() != "SETTITLE"@.len());
    reveal_strlit("SETERROR");
    assert("SETKEYINFO"@.len() != "SETERROR"@.len());
    reveal_strlit("SETOK");
    assert("SETKEYINFO"@.len() != "SETOK"@.len());
    reveal_strlit("SETNOTOK");
    assert("SETKEYINFO"@.len() != "SETNOTOK"@.len());
    reveal_strlit("SETCANCEL");
    assert("SETKEYINFO"@.len() != "SETCANCEL"@.len());
    reveal_strlit("SETREPEAT");
    assert("SETKEYINFO"@.len() != "SETREPEAT"@.len());
    reveal_strlit("SETREPEATOK");
    assert("SETKEYINFO"@.len() != "SETREPEATOK"@.len());
    reveal_strlit("SETREPEATERROR");
    assert("SETKEYINFO"@.len() != "SETREPEATERROR"@.len());
    reveal_strlit("SETGENPIN");
    assert("SETKEYINFO"@.len() != "SETGENPIN"@.len());
    reveal_strlit("SETGENPIN_TT");
    assert("SETKEYINFO"@.len() != "SETGENPIN_TT"@.len());
    reveal_strlit("SETQUALITYBAR_TT");
    assert("SETKEYINFO"@.len() != "SETQUALITYBAR_TT"@.len());
}

/// A `SETKEYINFO` line, with `tail` the rest of the line after the word.
proof fn lemma_setkeyinfo_line(st: StateModel, host: Option<HostInfo>, a: Answers, tail: Seq<char>)
    requires
        tail.len() == 0 || (tail.len() > 1 && tail[0] == ' ' && !is_ws(tail[1])),
        tail.len() > 0 ==> tail.last() != '\r' && tail.last() != '\n',
    ensures
        respond(st, host, "SETKEYINFO"@ + tail, a) == run_command(
            st,
            host,
            Command::SetKeyInfo,
            if tail.len() == 0 {
                seq![]
            } else {
                tail.skip(1)
            },
            a,
        ),
{
    lemma_setkeyinfo_word();
    reveal_strlit("SETKEYINFO");
    lemma_command_line(st, host, a, "SETKEYINFO"@, tail);
}

/// `SETKEYINFO` keeps the key identifier it is given, exactly and with no
/// other change, and answers OK; only an empty argument or `--clear`
/// removes it.
pub proof fn law_setkeyinfo_keeps_the_identifier(st: StateModel, host: Option<HostInfo>, a: Answers, id: Seq<char>)
    requires
        id.len() > 0,
        !is_ws(id[0]),
        id.last() != '\r' && id.last() != '\n',
        id != "--clear"@,
    ensures
        respond(st, host, "SETKEYINFO"@ + seq![' '] + id, a) == reply(
            with_request(st, RequestModel { keyinfo: Some(id), ..st.request }),
            ok_line(),
        ),
        respond(st, host, "SETKEYINFO"@ + seq![' '] + "--clear"@, a) == reply(
            with_request(st, RequestModel { keyinfo: None, ..st.request }),
            ok_line(),
        ),
        respond(st, host, "SETKEYINFO"@, a) == reply(
            with_request(st, RequestModel { keyinfo: None, ..st.request }),
            ok_line(),
        ),
{
    let t = seq![' '] + id;
    assert(t.skip(1) =~= id);
    assert(t[1] == id[0]);
    assert(t.last() == id.last());
    lemma_setkeyinfo_line(st, host, a, t);
    assert("SETKEYINFO"@ + seq![' '] + id =~= "SETKEYINFO"@ + t);
    reveal_strlit("--clear");
    let tc = seq![' '] + "--clear"@;
    assert(tc.skip(1) =~= "--clear"@);
    assert(tc[1] == '-');
    assert(tc.last() == 'r');
    lemma_setkeyinfo_line(st, host, a, tc);
    assert("SETKEYINFO"@ + seq![' '] + "--clear"@ =~= "SETKEYINFO"@ + tc);
    lemma_setkeyinfo_line(st, host, a, seq![]);
    assert("SETKEYINFO"@ + Seq::<char>::empty() =~= "SETKEYINFO"@);
}


/// A command line: a word, then nothing or a space and an argument that
/// starts with no whitespace and ends with no line break.
proof fn lemma_command_line(st: StateModel, host: Option<HostInfo>, a: Answers, w: Seq<char>, tail: Seq<char>)
    requires
        is_word(w),
        w.len() > 0,
        w[0] != '#',
        tail.len() == 0 || (tail.len() > 1 && tail[0] == ' ' && !is_ws(tail[1])),
        tail.len() > 0 ==> tail.last() != '\r' && tail.last() != '\n',
    ensures
        respond(st, host, w + tail, a) == run_command(
            st,
            host,
            command_of(ascii_upper(w)),
            if tail.len() == 0 {
                seq![]
            } else {
                tail.skip(1)
            },
            a,
        ),
{
    lemma_strip_eol_concat(w, tail);
    assert(strip_eol(tail) == tail);
    lemma_split_word(w, tail);
    if tail.len() > 0 {
        let id = tail.skip(1);
        assert(id[0] == tail[1]);
        assert(trim_start(id) == id);
    }
    assert((w + tail)[0] == w[0]);
}

proof fn lemma_word_setdesc()
    ensures
        is_word("SETDESC"@),
        "SETDESC"@.len() > 0,
        "SETDESC"@[0] != '#',
        command_of(ascii_upper("SETDESC"@)) == Command::SetText(Field::Description),
{
    reveal_strlit("SETDESC");
    assert(ascii_upper("SETDESC"@) =~= "SETDESC"@);
    reveal_strlit("BYE");
    assert("SETDESC"@.len() != "BYE"@.len());
    reveal_strlit("RESET");
    assert("SETDESC"@.len() != "RESET"@.len());
    reveal_strlit("NOP");
    assert("SETDESC"@.len() != "NOP"@.len());
    reveal_strlit("CANCEL");
    assert("SETDESC"@.len() != "CANCEL"@.len());
    reveal_strlit("END");
    assert("SETDESC"@.len() != "END"@.len());
    reveal_strlit("OPTION");
    assert("SETDESC"@.len() != "OPTION"@.len());
    reveal_strlit("GETINFO");
    assert("SETDESC"@[0] != "GETINFO"@[0]);
    reveal_strlit("GETPIN");
    assert("SETDESC"@.len() != "GETPIN"@.len());
    reveal_strlit("CONFIRM");
    assert("SETDESC"@[0] != "CONFIRM"@[0]);
    reveal_strlit("MESSAGE");
    assert("SETDESC"@[0] != "MESSAGE"@[0]);
}

proof fn lemma_word_setprompt()
    ensures
        is_word("SETPROMPT"@),
        "SETPROMPT"@.len() > 0,
        "SETPROMPT"@[0] != '#',
        command_of(ascii_upper("SETPROMPT"@)) == Command::SetText(Field::Prompt),
{
    reveal_strlit("SETPROMPT");
    assert(ascii_upper("SETPROMPT"@) =~= "SETPROMPT"@);
    reveal_strlit("BYE");
    assert("SETPROMPT"@.len() != "BYE"@.len());
    reveal_strlit("RESET");
    assert("SETPROMPT"@.len() != "RESET"@.len());
    reveal_strlit("NOP");
    assert("SETPROMPT"@.len() != "NOP"@.len());
    reveal_strlit("CANCEL");
    assert("SETPROMPT"@.len() != "CANCEL"@.len());
    reveal_strlit("END");
    assert("SETPROMPT"@.len() != "END"@.len());
    reveal_strlit("OPTION");
    assert("SETPROMPT"@.len() != "OPTION"@.len());
    reveal_strlit("GETINFO");
    assert("SETPROMPT"@.len() != "GETINFO"@.len());
    reveal_strlit("GETPIN");
    assert("SETPROMPT"@.len() != "GETPIN"@.len());
    reveal_strlit("CONFIRM");
    assert("SETPROMPT"@.len() != "CONFIRM"@.len());
    reveal_strlit("MESSAGE");
    assert("SETPROMPT"@.len() != "MESSAGE"@.len());
    reveal_strlit("SETDESC");
    assert("SETPROMPT"@.len() != "SETDESC"@.len());
}

proof fn lemma_word_settitle()
    ensures
        is_word("SETTITLE"@),
        "SETTITLE"@.len() > 0,
        "SETTITLE"@[0] != '#',
        command_of(ascii_upper("SETTITLE"@)) == Command::SetText(Field::Title),
{
    reveal_strlit("SETTITLE");
    assert(ascii_upper("SETTITLE"@) =~= "SETTITLE"@);
    reveal_strlit("BYE");
    assert("SETTITLE"@.len() != "BYE"@.len());
    reveal_strlit("RESET");
    assert("SETTITLE"@.len() != "RESET"@.len());
    reveal_strlit("NOP");
    assert("SETTITLE"@.len() != "NOP"@.len());
    reveal_strlit("CANCEL");
    assert("SETTITLE"@.len() != "CANCEL"@.len());
    reveal_strlit("END");
    assert("SETTITLE"@.len() != "END"@.len());
    reveal_strlit("OPTION");
    assert("SETTITLE"@.len() != "OPTION"@.len());
    reveal_strlit("GETINFO");
    assert("SETTITLE"@.len() != "GETINFO"@.len());
    reveal_strlit("GETPIN");
    assert("SETTITLE"@.len() != "GETPIN"@.len());
    reveal_strlit("CONFIRM");
    assert("SETTITLE"@.len() != "CONFIRM"@.len());
    reveal_strlit("MESSAGE");
    assert("SETTITLE"@.len() != "MESSAGE"@.len());
    reveal_strlit("SETDESC");
    assert("SETTITLE"@.len() != "SETDESC"@.len());
    reveal_strlit("SETPROMPT");
    assert("SETTITLE"@.len() != "SETPROMPT"@.len());
}

proof fn lemma_word_seterror()
    ensures
        is_word("SETERROR"@),
        "SETERROR"@.len() > 0,
        "SETERROR"@[0] != '#',
        command_of(ascii_upper("SETERROR"@)) == Command::SetText(Field::Error),
{
    reveal_strlit("SETERROR");
    assert(ascii_upper("SETERROR"@) =~= "SETERROR"@);
    reveal_strlit("BYE");
    assert("SETERROR"@.len() != "BYE"@.len());
    reveal_strlit("RESET");
    assert("SETERROR"@.len() != "RESET"@.len());
    reveal_strlit("NOP");
    assert("SETERROR"@.len() != "NOP"@.len());
    reveal_strlit("CANCEL");
    assert("SETERROR"@.len() != "CANCEL"@.len());
    reveal_strlit("END");
    assert("SETERROR"@.len() != "END"@.len());
    reveal_strlit("OPTION");
    assert("SETERROR"@.len() != "OPTION"@.len());
    reveal_strlit("GETINFO");
    assert("SETERROR"@.len() != "GETINFO"@.len());
    reveal_strlit("GETPIN");
    assert("SETERROR"@.len() != "GETPIN"@.len());
    reveal_strlit("CONFIRM");
    assert("SETERROR"@.len() != "CONFIRM"@.len());
    reveal_strlit("MESSAGE");
    assert("SETERROR"@.len() != "MESSAGE"@.len());
    reveal_strlit("SETDESC");
    assert("SETERROR"@.len() != "SETDESC"@.len());
    reveal_strlit("SETPROMPT");
    assert("SETERROR"@.len() != "SETPROMPT"@.len());
    reveal_strlit("SETTITLE");
    assert("SETERROR"@[3] != "SETTITLE"@[3]);
}

proof fn lemma_word_setok()
    ensures
        is_word("SETOK"@),
        "SETOK"@.len() > 0,
        "SETOK"@[0] != '#',
        command_of(ascii_upper("SETOK"@)) == Command::SetText(Field::OkLabel),
{
    reveal_strlit("SETOK");
    assert(ascii_upper("SETOK"@) =~= "SETOK"@);
    reveal_strlit("BYE");
    assert("SETOK"@.len() != "BYE"@.len());
    reveal_strlit("RESET");
    assert("SETOK"@[0] != "RESET"@[0]);
    reveal_strlit("NOP");
    assert("SETOK"@.len() != "NOP"@.len());
    reveal_strlit("CANCEL");
    assert("SETOK"@.len() != "CANCEL"@.len());
    reveal_strlit("END");
    assert("SETOK"@.len() != "END"@.len());
    reveal_strlit("OPTION");
    assert("SETOK"@.len() != "OPTION"@.len());
    reveal_strlit("GETINFO");
    assert("SETOK"@.len() != "GETINFO"@.len());
    reveal_strlit("GETPIN");
    assert("SETOK"@.len() != "GETPIN"@.len());
    reveal_strlit("CONFIRM");
    assert("SETOK"@.len() != "CONFIRM"@.len());
    reveal_strlit("MESSAGE");
    assert("SETOK"@.len() != "MESSAGE"@.len());
    reveal_strlit("SETDESC");
    assert("SETOK"@.len() != "SETDESC"@.len());
    reveal_strlit("SETPROMPT");
    assert("SETOK"@.len() != "SETPROMPT"@.len());
    reveal_strlit("SETTITLE");
    assert("SETOK"@.len() != "SETTITLE"@.len());
    reveal_strlit("SETERROR");
    assert("SETOK"@.len() != "SETERROR"@.len());
}

proof fn lemma_word_setnotok()
    ensures
        is_word("SETNOTOK"@),
        "SETNOTOK"@.len() > 0,
        "SETNOTOK"@[0] != '#',
        command_of(ascii_upper("SETNOTOK"@)) == Command::SetText(Field::NotOk),
{
    reveal_strlit("SETNOTOK");
    assert(ascii_upper("SETNOTOK"@) =~= "SETNOTOK"@);
    reveal_strlit("BYE");
    assert("SETNOTOK"@.len() != "BYE"@.len());
    reveal_strlit("RESET");
    assert("SETNOTOK"@.len() != "RESET"@.len());
    reveal_strlit("NOP");
    assert("SETNOTOK"@.len() != "NOP"@.len());
    reveal_strlit("CANCEL");
    assert("SETNOTOK"@.len() != "CANCEL"@.len());
    reveal_strlit("END");
    assert("SETNOTOK"@.len() != "END"@.len());
    reveal_strlit("OPTION");
    assert("SETNOTOK"@.len() != "OPTION"@.len());
    reveal_strlit("GETINFO");
    assert("SETNOTOK"@.len() != "GETINFO"@.len());
    reveal_strlit("GETPIN");
    assert("SETNOTOK"@.len() != "GETPIN"@.len());
    reveal_strlit("CONFIRM");
    assert("SETNOTOK"@.len() != "CONFIRM"@.len());
    reveal_strlit("MESSAGE");
    assert("SETNOTOK"@.len() != "MESSAGE"@.len());
    reveal_strlit("SETDESC");
    assert("SETNOTOK"@.len() != "SETDESC"@.len());
    reveal_strlit("SETPROMPT");
    assert("SETNOTOK"@.len() != "SETPROMPT"@.len());
    reveal_strlit("SETTITLE");
    assert("SETNOTOK"@[3] != "SETTITLE"@[3]);
    reveal_strlit("SETERROR");
    assert("SETNOTOK"@[3] != "SETERROR"@[3]);
    reveal_strlit("SETOK");
    assert("SETNOTOK"@.len() != "SETOK"@.len());
}

proof fn lemma_word_setcancel()
    ensures
        is_word("SETCANCEL"@),
        "SETCANCEL"@.len() > 0,
        "SETCANCEL"@[0] != '#',
        command_of(ascii_upper("SETCANCEL"@)) == Command::SetText(Field::Cancel),
{
    reveal_strlit("SETCANCEL");
    assert(ascii_upper("SETCANCEL"@) =~= "SETCANCEL"@);
    reveal_strlit("BYE");
    assert("SETCANCEL"@.len() != "BYE"@.len());
    reveal_strlit("RESET");
    assert("SETCANCEL"@.len() != "RESET"@.len());
    reveal_strlit("NOP");
    assert("SETCANCEL"@.len() != "NOP"@.len());
    reveal_strlit("CANCEL");
    assert("SETCANCEL"@.len() != "CANCEL"@.len());
    reveal_strlit("END");
    assert("SETCANCEL"@.len() != "END"@.len());
    reveal_strlit("OPTION");
    assert("SETCANCEL"@.len() != "OPTION"@.len());
    reveal_strlit("GETINFO");
    assert("SETCANCEL"@.len() != "GETINFO"@.len());
    reveal_strlit("GETPIN");
    assert("SETCANCEL"@.len() != "GETPIN"@.len());
    reveal_strlit("CONFIRM");
    assert("SETCANCEL"@.len() != "CONFIRM"@.len());
    reveal_strlit("MESSAGE");
    assert("SETCANCEL"@.len() != "MESSAGE"@.len());
    reveal_strlit("SETDESC");
    assert("SETCANCEL"@.len() != "SETDESC"@.len());
    reveal_strlit("SETPROMPT");
    assert("SETCANCEL"@[3] != "SETPROMPT"@[3]);
    reveal_strlit("SETTITLE");
    assert("SETCANCEL"@.len() != "SETTITLE"@.len());
    reveal_strlit("SETERROR");
    assert("SETCANCEL"@.len() != "SETERROR"@.len());
    reveal_strlit("SETOK");
    assert("SETCANCEL"@.len() != "SETOK"@.len());
    reveal_strlit("SETNOTOK");
    assert("SETCANCEL"@.len() != "SETNOTOK"@.len());
}

proof fn lemma_word_setrepeat()
    ensures
        is_word("SETREPEAT"@),
        "SETREPEAT"@.len() > 0,
        "SETREPEAT"@[0] != '#',
        command_of(ascii_upper("SETREPEAT"@)) == Command::SetText(Field::Repeat),
{
    reveal_strlit("SETREPEAT");
    assert(ascii_upper("SETREPEAT"@) =~= "SETREPEAT"@);
    reveal_strlit("BYE");
    assert("SETREPEAT"@.len() != "BYE"@.len());
    reveal_strlit("RESET");
    assert("SETREPEAT"@.len() != "RESET"@.len());
    reveal_strlit("NOP");
    assert("SETREPEAT"@.len() != "NOP"@.len());
    reveal_strlit("CANCEL");
    assert("SETREPEAT"@.len() != "CANCEL"@.len());
    reveal_strlit("END");
    assert("SETREPEAT"@.len() != "END"@.len());
    reveal_strlit("OPTION");
    assert("SETREPEAT"@.len() != "OPTION"@.len());
    reveal_strlit("GETINFO");
    assert("SETREPEAT"@.len() != "GETINFO"@.len());
    reveal_strlit("GETPIN");
    assert("SETREPEAT"@.len() != "GETPIN"@.len());
    reveal_strlit("CONFIRM");
    assert("SETREPEAT"@.len() != "CONFIRM"@.len());
    reveal_strlit("MESSAGE");
    assert("SETREPEAT"@.len() != "MESSAGE"@.len());
    reveal_strlit("SETDESC");
    assert("SETREPEAT"@.len() != "SETDESC"@.len());
    reveal_strlit("SETPROMPT");
    assert("SETREPEAT"@[3] != "SETPROMPT"@[3]);
    reveal_strlit("SETTITLE");
    assert("SETREPEAT"@.len() != "SETTITLE"@.len());
    reveal_strlit("SETERROR");
    assert("SETREPEAT"@.len() != "SETERROR"@.len());
    reveal_strlit("SETOK");
    assert("SETREPEAT"@.len() != "SETOK"@.len());
    reveal_strlit("SETNOTOK");
    assert("SETREPEAT"@.len() != "SETNOTOK"@.len());
    reveal_strlit("SETCANCEL");
    assert("SETREPEAT"@[3] != "SETCANCEL"@[3]);
}

proof fn lemma_word_setrepeatok()
    ensures
        is_word("SETREPEATOK"@),
        "SETREPEATOK"@.len() > 0,
        "SETREPEATOK"@[0] != '#',
        command_of(ascii_upper("SETREPEATOK"@)) == Command::SetText(Field::RepeatOk),
{
    reveal_strlit("SETREPEATOK");
    assert(ascii_upper("SETREPEATOK"@) =~= "SETREPEATOK"@);
    reveal_strlit("BYE");
    assert("SETREPEATOK"@.len() != "BYE"@.len());
    reveal_strlit("RESET");
    assert("SETREPEATOK"@.len() != "RESET"@.len());
    reveal_strlit("NOP");
    assert("SETREPEATOK"@.len() != "NOP"@.len());
    reveal_strlit("CANCEL");
    assert("SETREPEATOK"@.len() != "CANCEL"@.len());
    reveal_strlit("END");
    assert("SETREPEATOK"@.len() != "END"@.len());
    reveal_strlit("OPTION");
    assert("SETREPEATOK"@.len() != "OPTION"@.len());
    reveal_strlit("GETINFO");
    assert("SETREPEATOK"@.len() != "GETINFO"@.len());
    reveal_strlit("GETPIN");
    assert("SETREPEATOK"@.len() != "GETPIN"@.len());
    reveal_strlit("CONFIRM");
    assert("SETREPEATOK"@.len() != "CONFIRM"@.len());
    reveal_strlit("MESSAGE");
    assert("SETREPEATOK"@.len() != "MESSAGE"@.len());
    reveal_strlit("SETDESC");
    assert("SETREPEATOK"@.len() != "SETDESC"@.len());
    reveal_strlit("SETPROMPT");
    assert("SETREPEATOK"@.len() != "SETPROMPT"@.len());
    reveal_strlit("SETTITLE");
    assert("SETREPEATOK"@.len() != "SETTITLE"@.len());
    reveal_strlit("SETERROR");
    assert("SETREPEATOK"@.len() != "SETERROR"@.len());
    reveal_strlit("SETOK");
    assert("SETREPEATOK"@.len() != "SETOK"@.len());
    reveal_strlit("SETNOTOK");
    assert("SETREPEATOK"@.len() != "SETNOTOK"@.len());
    reveal_strlit("SETCANCEL");
    assert("SETREPEATOK"@.len() != "SETCANCEL"@.len());
    reveal_strlit("SETREPEAT");
    assert("SETREPEATOK"@.len() != "SETREPEAT"@.len());
}

proof fn lemma_word_setrepeaterror()
    ensures
        is_word("SETREPEATERROR"@),
        "SETREPEATERROR"@.len() > 0,
        "SETREPEATERROR"@[0] != '#',
        command_of(ascii_upper("SETREPEATERROR"@)) == Command::SetText(Field::RepeatError),
{
    reveal_strlit("SETREPEATERROR");
    assert(ascii_upper("SETREPEATERROR"@) =~= "SETREPEATERROR"@);
    reveal_strlit("BYE");
    assert("SETREPEATERROR"@.len() != "BYE"@.len());
    reveal_strlit("RESET");
    assert("SETREPEATERROR"@.len() != "RESET"@.len());
    reveal_strlit("NOP");
    assert("SETREPEATERROR"@.len() != "NOP"@.len());
    reveal_strlit("CANCEL");
    assert("SETREPEATERROR"@.len() != "CANCEL"@.len());
    reveal_strlit("END");
    assert("SETREPEATERROR"@.len() != "END"@.len());
    reveal_strlit("OPTION");
    assert("SETREPEATERROR"@.len() != "OPTION"@.len());
    reveal_strlit("GETINFO");
    assert("SETREPEATERROR"@.len() != "GETINFO"@.len());
    reveal_strlit("GETPIN");
    assert("SETREPEATERROR"@.len() != "GETPIN"@.len());
    reveal_strlit("CONFIRM");
    assert("SETREPEATERROR"@.len() != "CONFIRM"@.len());
    reveal_strlit("MESSAGE");
    assert("SETREPEATERROR"@.len() != "MESSAGE"@.len());
    reveal_strlit("SETDESC");
    assert("SETREPEATERROR"@.len() != "SETDESC"@.len());
    reveal_strlit("SETPROMPT");
    assert("SETREPEATERROR"@.len() != "SETPROMPT"@.len());
    reveal_strlit("SETTITLE");
    assert("SETREPEATERROR"@.len() != "SETTITLE"@.len());
    reveal_strlit("SETERROR");
    assert("SETREPEATERROR"@.len() != "SETERROR"@.len());
    reveal_strlit("SETOK");
    assert("SETREPEATERROR"@.len() != "SETOK"@.len());
    reveal_strlit("SETNOTOK");
    assert("SETREPEATERROR"@.len() != "SETNOTOK"@.len());
    reveal_strlit("SETCANCEL");
    assert("SETREPEATERROR"@.len() != "SETCANCEL"@.len());
    reveal_strlit("SETREPEAT");
    assert("SETREPEATERROR"@.len() != "SETREPEAT"@.len());
    reveal_strlit("SETREPEATOK");
    assert("SETREPEATERROR"@.len() != "SETREPEATOK"@.len());
}

proof fn lemma_word_setgenpin()
    ensures
        is_word("SETGENPIN"@),
        "SETGENPIN"@.len() > 0,
        "SETGENPIN"@[0] != '#',
        command_of(ascii_upper("SETGENPIN"@)) == Command::SetText(Field::GenPin),
{
    reveal_strlit("SETGENPIN");
    assert(ascii_upper("SETGENPIN"@) =~= "SETGENPIN"@);
    reveal_strlit("BYE");
    assert("SETGENPIN"@.len() != "BYE"@.len());
    reveal_strlit("RESET");
    assert("SETGENPIN"@.len() != "RESET"@.len());
    reveal_strlit("NOP");
    assert("SETGENPIN"@.len() != "NOP"@.len());
    reveal_strlit("CANCEL");
    assert("SETGENPIN"@.len() != "CANCEL"@.len());
    reveal_strlit("END");
    assert("SETGENPIN"@.len() != "END"@.len());
    reveal_strlit("OPTION");
    assert("SETGENPIN"@.len() != "OPTION"@.len());
    reveal_strlit("GETINFO");
    assert("SETGENPIN"@.len() != "GETINFO"@.len());
    reveal_strlit("GETPIN");
    assert("SETGENPIN"@.len() != "GETPIN"@.len());
    reveal_strlit("CONFIRM");
    assert("SETGENPIN"@.len() != "CONFIRM"@.len());
    reveal_strlit("MESSAGE");
    assert("SETGENPIN"@.len() != "MESSAGE"@.len());
    reveal_strlit("SETDESC");
    assert("SETGENPIN"@.len() != "SETDESC"@.len());
    reveal_strlit("SETPROMPT");
    assert("SETGENPIN"@[3] != "SETPROMPT"@[3]);
    reveal_strlit("SETTITLE");
    assert("SETGENPIN"@.len() != "SETTITLE"@.len());
    reveal_strlit("SETERROR");
    assert("SETGENPIN"@.len() != "SETERROR"@.len());
    reveal_strlit("SETOK");
    assert("SETGENPIN"@.len() != "SETOK"@.len());
    reveal_strlit("SETNOTOK");
    assert("SETGENPIN"@.len() != "SETNOTOK"@.len());
    reveal_strlit("SETCANCEL");
    assert("SETGENPIN"@[3] != "SETCANCEL"@[3]);
    reveal_strlit("SETREPEAT");
    assert("SETGENPIN"@[3] != "SETREPEAT"@[3]);
    reveal_strlit("SETREPEATOK");
    assert("SETGENPIN"@.len() != "SETREPEATOK"@.len());
    reveal_strlit("SETREPEATERROR");
    assert("SETGENPIN"@.len() != "SETREPEATERROR"@.len());
}

proof fn lemma_word_setgenpin_tt()
    ensures
        is_word("SETGENPIN_TT"@),
        "SETGENPIN_TT"@.len() > 0,
        "SETGENPIN_TT"@[0] != '#',
        command_of(ascii_upper("SETGENPIN_TT"@)) == Command::SetText(Field::GenPinTt),
{
    reveal_strlit("SETGENPIN_TT");
    assert(ascii_upper("SETGENPIN_TT"@) =~= "SETGENPIN_TT"@);
    reveal_strlit("BYE");
    assert("SETGENPIN_TT"@.len() != "BYE"@.len());
    reveal_strlit("RESET");
    assert("SETGENPIN_TT"@.len() != "RESET"@.len());
    reveal_strlit("NOP");
    assert("SETGENPIN_TT"@.len() != "NOP"@.len());
    reveal_strlit("CANCEL");
    assert("SETGENPIN_TT"@.len() != "CANCEL"@.len());
    reveal_strlit("END");
    assert("SETGENPIN_TT"@.len() != "END"@.len());
    reveal_strlit("OPTION");
    assert("SETGENPIN_TT"@.len() != "OPTION"@.len());
    reveal_strlit("GETINFO");
    assert("SETGENPIN_TT"@.len() != "GETINFO"@.len());
    reveal_strlit("GETPIN");
    assert("SETGENPIN_TT"@.len() != "GETPIN"@.len());
    reveal_strlit("CONFIRM");
    assert("SETGENPIN_TT"@.len() != "CONFIRM"@.len());
    reveal_strlit("MESSAGE");
    assert("SETGENPIN_TT"@.len() != "MESSAGE"@.len());
    reveal_strlit("SETDESC");
    assert("SETGENPIN_TT"@.len() != "SETDESC"@.len());
    reveal_strlit("SETPROMPT");
    assert("SETGENPIN_TT"@.len() != "SETPROMPT"@.len());
    reveal_strlit("SETTITLE");
    assert("SETGENPIN_TT"@.len() != "SETTITLE"@.len());
    reveal_strlit("SETERROR");
    assert("SETGENPIN_TT"@.len() != "SETERROR"@.len());
    reveal_strlit("SETOK");
    assert("SETGENPIN_TT"@.len() != "SETOK"@.len());
    reveal_strlit("SETNOTOK");
    assert("SETGENPIN_TT"@.len() != "SETNOTOK"@.len());
    reveal_strlit("SETCANCEL");
    assert("SETGENPIN_TT"@.len() != "SETCANCEL"@.len());
    reveal_strlit("SETREPEAT");
    assert("SETGENPIN_TT"@.len() != "SETREPEAT"@.len());
    reveal_strlit("SETREPEATOK");
    assert("SETGENPIN_TT"@.len() != "SETREPEATOK"@.len());
    reveal_strlit("SETREPEATERROR");
    assert("SETGENPIN_TT"@.len() != "SETREPEATERROR"@.len());
    reveal_strlit("SETGENPIN");
    assert("SETGENPIN_TT"@.len() != "SETGENPIN"@.len());
}

proof fn lemma_word_setqualitybar_tt()
    ensures
        is_word("SETQUALITYBAR_TT"@),
        "SETQUALITYBAR_TT"@.len() > 0,
        "SETQUALITYBAR_TT"@[0] != '#',
        command_of(ascii_upper("SETQUALITYBAR_TT"@)) == Command::SetText(Field::QualityBarTt),
{
    reveal_strlit("SETQUALITYBAR_TT");
    assert(ascii_upper("SETQUALITYBAR_TT"@) =~= "SETQUALITYBAR_TT"@);
    reveal_strlit("BYE");
    assert("SETQUALITYBAR_TT"@.len() != "BYE"@.len());
    reveal_strlit("RESET");
    assert("SETQUALITYBAR_TT"@.len() != "RESET"@.len());
    reveal_strlit("NOP");
    assert("SETQUALITYBAR_TT"@.len() != "NOP"@.len());
    reveal_strlit("CANCEL");
    assert("SETQUALITYBAR_TT"@.len() != "CANCEL"@.len());
    reveal_strlit("END");
    assert("SETQUALITYBAR_TT"@.len() != "END"@.len());
    reveal_strlit("OPTION");
    assert("SETQUALITYBAR_TT"@.len() != "OPTION"@.len());
    reveal_strlit("GETINFO");
    assert("SETQUALITYBAR_TT"@.len() != "GETINFO"@.len());
    reveal_strlit("GETPIN");
    assert("SETQUALITYBAR_TT"@.len() != "GETPIN"@.len());
    reveal_strlit("CONFIRM");
    assert("SETQUALITYBAR_TT"@.len() != "CONFIRM"@.len());
    reveal_strlit("MESSAGE");
    assert("SETQUALITYBAR_TT"@.len() != "MESSAGE"@.len());
    reveal_strlit("SETDESC");
    assert("SETQUALITYBAR_TT"@.len() != "SETDESC"@.len());
    reveal_strlit("SETPROMPT");
    assert("SETQUALITYBAR_TT"@.len() != "SETPROMPT"@.len());
    reveal_strlit("SETTITLE");
    assert("SETQUALITYBAR_TT"@.len() != "SETTITLE"@.len());
    reveal_strlit("SETERROR");
    assert("SETQUALITYBAR_TT"@.len() != "SETERROR"@.len());
    reveal_strlit("SETOK");
    assert("SETQUALITYBAR_TT"@.len() != "SETOK"@.len());
    reveal_strlit("SETNOTOK");
    assert("SETQUALITYBAR_TT"@.len() != "SETNOTOK"@.len());
    reveal_strlit("SETCANCEL");
    assert("SETQUALITYBAR_TT"@.len() != "SETCANCEL"@.len());
    reveal_strlit("SETREPEAT");
    assert("SETQUALITYBAR_TT"@.len() != "SETREPEAT"@.len());
    reveal_strlit("SETREPEATOK");
    assert("SETQUALITYBAR_TT"@.len() != "SETREPEATOK"@.len());
    reveal_strlit("SETREPEATERROR");
    assert("SETQUALITYBAR_TT"@.len() != "SETREPEATERROR"@.len());
    reveal_strlit("SETGENPIN");
    assert("SETQUALITYBAR_TT"@.len() != "SETGENPIN"@.len());
    reveal_strlit("SETGENPIN_TT");
    assert("SETQUALITYBAR_TT"@.len() != "SETGENPIN_TT"@.len());
}

proof fn lemma_word_setqualitybar()
    ensures
        is_word("SETQUALITYBAR"@),
        "SETQUALITYBAR"@.len() > 0,
        "SETQUALITYBAR"@[0] != '#',
        command_of(ascii_upper("SETQUALITYBAR"@)) == Command::SetQualityBar,
{
    reveal_strlit("SETQUALITYBAR");
    assert(ascii_upper("SETQUALITYBAR"@) =~= "SETQUALITYBAR"@);
    reveal_strlit("BYE");
    assert("SETQUALITYBAR"@.len() != "BYE"@.len());
    reveal_strlit("RESET");
    assert("SETQUALITYBAR"@.len() != "RESET"@.len());
    reveal_strlit("NOP");
    assert("SETQUALITYBAR"@.len() != "NOP"@.len());
    reveal_strlit("CANCEL");
    assert("SETQUALITYBAR"@.len() != "CANCEL"@.len());
    reveal_strlit("END");
    assert("SETQUALITYBAR"@.len() != "END"@.len());
    reveal_strlit("OPTION");
    assert("SETQUALITYBAR"@.len() != "OPTION"@.len());
    reveal_strlit("GETINFO");
    assert("SETQUALITYBAR"@.len() != "GETINFO"@.len());
    reveal_strlit("GETPIN");
    assert("SETQUALITYBAR"@.len() != "GETPIN"@.len());
    reveal_strlit("CONFIRM");
    assert("SETQUALITYBAR"@.len() != "CONFIRM"@.len());
    reveal_strlit("MESSAGE");
    assert("SETQUALITYBAR"@.len() != "MESSAGE"@.len());
    reveal_strlit("SETDESC");
    assert("SETQUALITYBAR"@.len() != "SETDESC"@.len());
    reveal_strlit("SETPROMPT");
    assert("SETQUALITYBAR"@.len() != "SETPROMPT"@.len());
    reveal_strlit("SETTITLE");
    assert("SETQUALITYBAR"@.len() != "SETTITLE"@.len());
    reveal_strlit("SETERROR");
    assert("SETQUALITYBAR"@.len() != "SETERROR"@.len());
    reveal_strlit("SETOK");
    assert("SETQUALITYBAR"@.len() != "SETOK"@.len());
    reveal_strlit("SETNOTOK");
    assert("SETQUALITYBAR"@.len() != "SETNOTOK"@.len());
    reveal_strlit("SETCANCEL");
    assert("SETQUALITYBAR"@.len() != "SETCANCEL"@.len());
    reveal_strlit("SETREPEAT");
    assert("SETQUALITYBAR"@.len() != "SETREPEAT"@.len());
    reveal_strlit("SETREPEATOK");
    assert("SETQUALITYBAR"@.len() != "SETREPEATOK"@.len());
    reveal_strlit("SETREPEATERROR");
    assert("SETQUALITYBAR"@.len() != "SETREPEATERROR"@.len());
    reveal_strlit("SETGENPIN");
    assert("SETQUALITYBAR"@.len() != "SETGENPIN"@.len());
    reveal_strlit("SETGENPIN_TT");
    assert("SETQUALITYBAR"@.len() != "SETGENPIN_TT"@.len());
    reveal_strlit("SETQUALITYBAR_TT");
    assert("SETQUALITYBAR"@.len() != "SETQUALITYBAR_TT"@.len());
    reveal_strlit("SETKEYINFO");
    assert("SETQUALITYBAR"@.len() != "SETKEYINFO"@.len());
}

proof fn lemma_word_settimeout()
    ensures
        is_word("SETTIMEOUT"@),
        "SETTIMEOUT"@.len() > 0,
        "SETTIMEOUT"@[0] != '#',
        command_of(ascii_upper("SETTIMEOUT"@)) == Command::SetTimeout,
{
    reveal_strlit("SETTIMEOUT");
    assert(ascii_upper("SETTIMEOUT"@) =~= "SETTIMEOUT"@);
    reveal_strlit("BYE");
    assert("SETTIMEOUT"@.len() != "BYE"@.len());
    reveal_strlit("RESET");
    assert("SETTIMEOUT"@.len() != "RESET"@.len());
    reveal_strlit("NOP");
    assert("SETTIMEOUT"@.len() != "NOP"@.len());
    reveal_strlit("CANCEL");
    assert("SETTIMEOUT"@.len() != "CANCEL"@.len());
    reveal_strlit("END");
    assert("SETTIMEOUT"@.len() != "END"@.len());
    reveal_strlit("OPTION");
    assert("SETTIMEOUT"@.len() != "OPTION"@.len());
    reveal_strlit("GETINFO");
    assert("SETTIMEOUT"@.len() != "GETINFO"@.len());
    reveal_strlit("GETPIN");
    assert("SETTIMEOUT"@.len() != "GETPIN"@.len());
    reveal_strlit("CONFIRM");
    assert("SETTIMEOUT"@.len() != "CONFIRM"@.len());
    reveal_strlit("MESSAGE");
    assert("SETTIMEOUT"@.len() != "MESSAGE"@.len());
    reveal_strlit("SETDESC");
    assert("SETTIMEOUT"@.len() != "SETDESC"@.len());
    reveal_strlit("SETPROMPT");
    assert("SETTIMEOUT"@.len() != "SETPROMPT"@.len());
    reveal_strlit("SETTITLE");
    assert("SETTIMEOUT"@.len() != "SETTITLE"@.len());
    reveal_strlit("SETERROR");
    assert("SETTIMEOUT"@.len() != "SETERROR"@.len());
    reveal_strlit("SETOK");
    assert("SETTIMEOUT"@.len() != "SETOK"@.len());
    reveal_strlit("SETNOTOK");
    assert("SETTIMEOUT"@.len() != "SETNOTOK"@.len());
    reveal_strlit("SETCANCEL");
    assert("SETTIMEOUT"@.len() != "SETCANCEL"@.len());
    reveal_strlit("SETREPEAT");
    assert("SETTIMEOUT"@.len() != "SETREPEAT"@.len());
    reveal_strlit("SETREPEATOK");
    assert("SETTIMEOUT"@.len() != "SETREPEATOK"@.len());
    reveal_strlit("SETREPEATERROR");
    assert("SETTIMEOUT"@.len() != "SETREPEATERROR"@.len());
    reveal_strlit("SETGENPIN");
    assert("SETTIMEOUT"@.len() != "SETGENPIN"@.len());
    reveal_strlit("SETGENPIN_TT");
    assert("SETTIMEOUT"@.len() != "SETGENPIN_TT"@.len());
    reveal_strlit("SETQUALITYBAR_TT");
    assert("SETTIMEOUT"@.len() != "SETQUALITYBAR_TT"@.len());
    reveal_strlit("SETKEYINFO");
    assert("SETTIMEOUT"@[3] != "SETKEYINFO"@[3]);
    reveal_strlit("SETQUALITYBAR");
    assert("SETTIMEOUT"@.len() != "SETQUALITYBAR"@.len());
}

/// Each `SET` text command stores its percent-decoded argument in its own
/// field of the request, and nowhere else, and answers OK; an argument that
/// decodes to nothing clears that field.
#[verifier::rlimit(60)]
#[verifier::spinoff_prover]
pub proof fn law_set_commands_write_their_own_field(st: StateModel, host: Option<HostInfo>, a: Answers, t: Seq<char>)
    requires
        t.len() > 0,
        !is_ws(t[0]),
        t.last() != '\r' && t.last() != '\n',
    ensures
        respond(st, host, "SETDESC"@ + seq![' '] + t, a) == reply(
            with_request(st, RequestModel { description: nonempty(decoded(t)), ..st.request }),
            ok_line(),
        ),
        respond(st, host, "SETPROMPT"@ + seq![' '] + t, a) == reply(
            with_request(st, RequestModel { prompt: nonempty(decoded(t)), ..st.request }),
            ok_line(),
        ),
        respond(st, host, "SETTITLE"@ + seq![' '] + t, a) == reply(
            with_request(st, RequestModel { title: nonempty(decoded(t)), ..st.request }),
            ok_line(),
        ),
        respond(st, host, "SETERROR"@ + seq![' '] + t, a) == reply(
            with_request(st, RequestModel { error: nonempty(decoded(t)), ..st.request }),
            ok_line(),
        ),
        respond(st, host, "SETOK"@ + seq![' '] + t, a) == reply(
            with_request(st, RequestModel { ok: nonempty(decoded(t)), ..st.request }),
            ok_line(),
        ),
        respond(st, host, "SETNOTOK"@ + seq![' '] + t, a) == reply(
            with_request(st, RequestModel { notok: nonempty(decoded(t)), ..st.request }),
            ok_line(),
        ),
        respond(st, host, "SETCANCEL"@ + seq![' '] + t, a) == reply(
            with_request(st, RequestModel { cancel: nonempty(decoded(t)), ..st.request }),
            ok_line(),
        ),
        respond(st, host, "SETREPEAT"@ + seq![' '] + t, a) == reply(
            with_request(st, RequestModel { repeat_passphrase: nonempty(decoded(t)), ..st.request }),
            ok_line(),
        ),
        respond(st, host, "SETREPEATOK"@ + seq![' '] + t, a) == reply(
            with_request(st, RequestModel { repeat_ok: nonempty(decoded(t)), ..st.request }),
            ok_line(),
        ),
        respond(st, host, "SETREPEATERROR"@ + seq![' '] + t, a) == reply(
            with_request(st, RequestModel { repeat_error: nonempty(decoded(t)), ..st.request }),
            ok_line(),
        ),
        respond(st, host, "SETGENPIN"@ + seq![' '] + t, a) == reply(
            with_request(st, RequestModel { genpin_label: nonempty(decoded(t)), ..st.request }),
            ok_line(),
        ),
        respond(st, host, "SETGENPIN_TT"@ + seq![' '] + t, a) == reply(
            with_request(st, RequestModel { genpin_tt: nonempty(decoded(t)), ..st.request }),
            ok_line(),
        ),
        respond(st, host, "SETQUALITYBAR_TT"@ + seq![' '] + t, a) == reply(
            with_request(st, RequestModel { quality_bar_tt: nonempty(decoded(t)), ..st.request }),
            ok_line(),
        ),
        respond(st, host, "SETQUALITYBAR"@ + seq![' '] + t, a) == reply(
            with_request(st, RequestModel { quality_bar: Some(decoded(t)), ..st.request }),
            ok_line(),
        ),
        respond(st, host, "SETQUALITYBAR"@, a) == reply(
            with_request(st, RequestModel { quality_bar: Some("Quality:"@), ..st.request }),
            ok_line(),
        ),
        respond(st, host, "SETTIMEOUT"@ + seq![' '] + t, a) == reply(
            match parse_u32(trim(t)) {
                Some(n) => with_options(st, OptionsModel { timeout_secs: n, ..st.options }),
                None => st,
            },
            ok_line(),
        ),
{
    let tl = seq![' '] + t;
    assert(tl.skip(1) =~= t);
    assert(tl[1] == t[0]);
    assert(tl.last() == t.last());
    lemma_word_setdesc();
    lemma_command_line(st, host, a, "SETDESC"@, tl);
    assert("SETDESC"@ + seq![' '] + t =~= "SETDESC"@ + tl);
    lemma_word_setprompt();
    lemma_command_line(st, host, a, "SETPROMPT"@, tl);
    assert("SETPROMPT"@ + seq![' '] + t =~= "SETPROMPT"@ + tl);
    lemma_word_settitle();
    lemma_command_line(st, host, a, "SETTITLE"@, tl);
    assert("SETTITLE"@ + seq![' '] + t =~= "SETTITLE"@ + tl);
    lemma_word_seterror();
    lemma_command_line(st, host, a, "SETERROR"@, tl);
    assert("SETERROR"@ + seq![' '] + t =~= "SETERROR"@ + tl);
    lemma_word_setok();
    lemma_command_line(st, host, a, "SETOK"@, tl);
    assert("SETOK"@ + seq![' '] + t =~= "SETOK"@ + tl);
    lemma_word_setnotok();
    lemma_command_line(st, host, a, "SETNOTOK"@, tl);
    assert("SETNOTOK"@ + seq![' '] + t =~= "SETNOTOK"@ + tl);
    lemma_word_setcancel();
    lemma_command_line(st, host, a, "SETCANCEL"@, tl);
    assert("SETCANCEL"@ + seq![' '] + t =~= "SETCANCEL"@ + tl);
    lemma_word_setrepeat();
    lemma_command_line(st, host, a, "SETREPEAT"@, tl);
    assert("SETREPEAT"@ + seq![' '] + t =~= "SETREPEAT"@ + tl);
    lemma_word_setrepeatok();
    lemma_command_line(st, host, a, "SETREPEATOK"@, tl);
    assert("SETREPEATOK"@ + seq![' '] + t =~= "SETREPEATOK"@ + tl);
    lemma_word_setrepeaterror();
    lemma_command_line(st, host, a, "SETREPEATERROR"@, tl);
    assert("SETREPEATERROR"@ + seq![' '] + t =~= "SETREPEATERROR"@ + tl);
    lemma_word_setgenpin();
    lemma_command_line(st, host, a, "SETGENPIN"@, tl);
    assert("SETGENPIN"@ + seq![' '] + t =~= "SETGENPIN"@ + tl);
    lemma_word_setgenpin_tt();
    lemma_command_line(st, host, a, "SETGENPIN_TT"@, tl);
    assert("SETGENPIN_TT"@ + seq![' '] + t =~= "SETGENPIN_TT"@ + tl);
    lemma_word_setqualitybar_tt();
    lemma_command_line(st, host, a, "SETQUALITYBAR_TT"@, tl);
    assert("SETQUALITYBAR_TT"@ + seq![' '] + t =~= "SETQUALITYBAR_TT"@ + tl);
    lemma_word_setqualitybar();
    lemma_command_line(st, host, a, "SETQUALITYBAR"@, tl);
    assert("SETQUALITYBAR"@ + seq![' '] + t =~= "SETQUALITYBAR"@ + tl);
    lemma_command_line(st, host, a, "SETQUALITYBAR"@, seq![]);
    assert("SETQUALITYBAR"@ + Seq::<char>::empty() =~= "SETQUALITYBAR"@);
    lemma_word_settimeout();
    lemma_command_line(st, host, a, "SETTIMEOUT"@, tl);
    assert("SETTIMEOUT"@ + seq![' '] + t =~= "SETTIMEOUT"@ + tl);
}

} // verus!
