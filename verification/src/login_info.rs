//! The client fingerprint that is sent to log in, and its two renderings as
//! `key|value` lines.

use crate::text::{kv_line, pairs_of, pairs_view, parse_pairs, push_line};
use vstd::prelude::*;
use vstd::string::StringExecFns;

verus! {

/// The fingerprint of the client: device, platform and account fields, all
/// kept as the text that goes on the wire.
#[derive(Debug, Clone, PartialEq, Eq)]
pub struct LoginInfo {
    pub uuid: String,
    pub protocol: String,
    pub fhash: String,
    pub mac: String,
    pub requested_name: String,
    pub hash2: String,
    pub fz: String,
    pub f: String,
    pub player_age: String,
    pub game_version: String,
    pub lmode: String,
    pub cbits: String,
    pub rid: String,
    pub gdpr: String,
    pub hash: String,
    pub category: String,
    pub token: String,
    pub total_playtime: String,
    pub door_id: String,
    pub klv: String,
    pub meta: String,
    pub platform_id: String,
    pub device_version: String,
    pub zf: String,
    pub country: String,
    pub user: String,
    pub wk: String,
    pub tank_id_name: String,
    pub tank_id_pass: String,
}

/// The text of each field of a fingerprint.
pub struct LoginFields {
    pub uuid: Seq<char>,
    pub protocol: Seq<char>,
    pub fhash: Seq<char>,
    pub mac: Seq<char>,
    pub requested_name: Seq<char>,
    pub hash2: Seq<char>,
    pub fz: Seq<char>,
    pub f: Seq<char>,
    pub player_age: Seq<char>,
    pub game_version: Seq<char>,
    pub lmode: Seq<char>,
    pub cbits: Seq<char>,
    pub rid: Seq<char>,
    pub gdpr: Seq<char>,
    pub hash: Seq<char>,
    pub category: Seq<char>,
    pub token: Seq<char>,
    pub total_playtime: Seq<char>,
    pub door_id: Seq<char>,
    pub klv: Seq<char>,
    pub meta: Seq<char>,
    pub platform_id: Seq<char>,
    pub device_version: Seq<char>,
    pub zf: Seq<char>,
    pub country: Seq<char>,
    pub user: Seq<char>,
    pub wk: Seq<char>,
    pub tank_id_name: Seq<char>,
    pub tank_id_pass: Seq<char>,
}

impl View for LoginInfo {
    type V = LoginFields;

    open spec fn view(&self) -> LoginFields {
        LoginFields {
            uuid: self.uuid@,
            protocol: self.protocol@,
            fhash: self.fhash@,
            mac: self.mac@,
            requested_name: self.requested_name@,
            hash2: self.hash2@,
            fz: self.fz@,
            f: self.f@,
            player_age: self.player_age@,
            game_version: self.game_version@,
            lmode: self.lmode@,
            cbits: self.cbits@,
            rid: self.rid@,
            gdpr: self.gdpr@,
            hash: self.hash@,
            category: self.category@,
            token: self.token@,
            total_playtime: self.total_playtime@,
            door_id: self.door_id@,
            klv: self.klv@,
            meta: self.meta@,
            platform_id: self.platform_id@,
            device_version: self.device_version@,
            zf: self.zf@,
            country: self.country@,
            user: self.user@,
            wk: self.wk@,
            tank_id_name: self.tank_id_name@,
            tank_id_pass: self.tank_id_pass@,
        }
    }
}

impl LoginFields {
    /// The fingerprint with every field empty.
    pub open spec fn blank() -> LoginFields {
        LoginFields {
            uuid: Seq::empty(),
            protocol: Seq::empty(),
            fhash: Seq::empty(),
            mac: Seq::empty(),
            requested_name: Seq::empty(),
            hash2: Seq::empty(),
            fz: Seq::empty(),
            f: Seq::empty(),
            player_age: Seq::empty(),
            game_version: Seq::empty(),
            lmode: Seq::empty(),
            cbits: Seq::empty(),
            rid: Seq::empty(),
            gdpr: Seq::empty(),
            hash: Seq::empty(),
            category: Seq::empty(),
            token: Seq::empty(),
            total_playtime: Seq::empty(),
            door_id: Seq::empty(),
            klv: Seq::empty(),
            meta: Seq::empty(),
            platform_id: Seq::empty(),
            device_version: Seq::empty(),
            zf: Seq::empty(),
            country: Seq::empty(),
            user: Seq::empty(),
            wk: Seq::empty(),
            tank_id_name: Seq::empty(),
            tank_id_pass: Seq::empty(),
        }
    }

    /// Whether `key` names a field of the fingerprint.
    pub open spec fn is_key(key: Seq<char>) -> bool {
        ||| key == "UUIDToken"@
        ||| key == "protocol"@
        ||| key == "fhash"@
        ||| key == "mac"@
        ||| key == "requestedName"@
        ||| key == "hash2"@
        ||| key == "fz"@
        ||| key == "f"@
        ||| key == "player_age"@
        ||| key == "game_version"@
        ||| key == "lmode"@
        ||| key == "cbits"@
        ||| key == "rid"@
        ||| key == "GDPR"@
        ||| key == "hash"@
        ||| key == "category"@
        ||| key == "token"@
        ||| key == "total_playtime"@
        ||| key == "door_id"@
        ||| key == "klv"@
        ||| key == "meta"@
        ||| key == "platformID"@
        ||| key == "deviceVersion"@
        ||| key == "zf"@
        ||| key == "country"@
        ||| key == "user"@
        ||| key == "wk"@
        ||| key == "tankIDName"@
        ||| key == "tankIDPass"@
    }

    /// The fingerprint after the field that `key` names took `value`; a key
    /// that names no field changes nothing.
    pub open spec fn with(self, key: Seq<char>, value: Seq<char>) -> LoginFields {
        if key == "UUIDToken"@ {
            LoginFields { uuid: value, ..self }
        } else if key == "protocol"@ {
            LoginFields { protocol: value, ..self }
        } else if key == "fhash"@ {
            LoginFields { fhash: value, ..self }
        } else if key == "mac"@ {
            LoginFields { mac: value, ..self }
        } else if key == "requestedName"@ {
            LoginFields { requested_name: value, ..self }
        } else if key == "hash2"@ {
            LoginFields { hash2: value, ..self }
        } else if key == "fz"@ {
            LoginFields { fz: value, ..self }
        } else if key == "f"@ {
            LoginFields { f: value, ..self }
        } else if key == "player_age"@ {
            LoginFields { player_age: value, ..self }
        } else if key == "game_version"@ {
            LoginFields { game_version: value, ..self }
        } else if key == "lmode"@ {
            LoginFields { lmode: value, ..self }
        } else if key == "cbits"@ {
            LoginFields { cbits: value, ..self }
        } else if key == "rid"@ {
            LoginFields { rid: value, ..self }
        } else if key == "GDPR"@ {
            LoginFields { gdpr: value, ..self }
        } else if key == "hash"@ {
            LoginFields { hash: value, ..self }
        } else if key == "category"@ {
            LoginFields { category: value, ..self }
        } else if key == "token"@ {
            LoginFields { token: value, ..self }
        } else if key == "total_playtime"@ {
            LoginFields { total_playtime: value, ..self }
        } else if key == "door_id"@ {
            LoginFields { door_id: value, ..self }
        } else if key == "klv"@ {
            LoginFields { klv: value, ..self }
        } else if key == "meta"@ {
            LoginFields { meta: value, ..self }
        } else if key == "platformID"@ {
            LoginFields { platform_id: value, ..self }
        } else if key == "deviceVersion"@ {
            LoginFields { device_version: value, ..self }
        } else if key == "zf"@ {
            LoginFields { zf: value, ..self }
        } else if key == "country"@ {
            LoginFields { country: value, ..self }
        } else if key == "user"@ {
            LoginFields { user: value, ..self }
        } else if key == "wk"@ {
            LoginFields { wk: value, ..self }
        } else if key == "tankIDName"@ {
            LoginFields { tank_id_name: value, ..self }
        } else if key == "tankIDPass"@ {
            LoginFields { tank_id_pass: value, ..self }
        } else {
            self
        }
    }

    /// The fingerprint after each pair was applied in turn.
    pub open spec fn with_all(self, pairs: Seq<(Seq<char>, Seq<char>)>) -> LoginFields
        decreases pairs.len(),
    {
        if pairs.len() == 0 {
            self
        } else {
            self.with_all(pairs.drop_last()).with(pairs.last().0, pairs.last().1)
        }
    }

    /// The full handshake: every field that the game server reads, one line
    /// each, in the order that the server expects.
    pub open spec fn handshake(self) -> Seq<char> {
        kv_line("UUIDToken"@, self.uuid)
            + kv_line("protocol"@, self.protocol)
            + kv_line("fhash"@, self.fhash)
            + kv_line("mac"@, self.mac)
            + kv_line("requestedName"@, self.requested_name)
            + kv_line("hash2"@, self.hash2)
            + kv_line("fz"@, self.fz)
            + kv_line("f"@, self.f)
            + kv_line("player_age"@, self.player_age)
            + kv_line("game_version"@, self.game_version)
            + kv_line("lmode"@, self.lmode)
            + kv_line("cbits"@, self.cbits)
            + kv_line("rid"@, self.rid)
            + kv_line("GDPR"@, self.gdpr)
            + kv_line("hash"@, self.hash)
            + kv_line("category"@, self.category)
            + kv_line("token"@, self.token)
            + kv_line("total_playtime"@, self.total_playtime)
            + kv_line("door_id"@, self.door_id)
            + kv_line("klv"@, self.klv)
            + kv_line("meta"@, self.meta)
            + kv_line("platformID"@, self.platform_id)
            + kv_line("deviceVersion"@, self.device_version)
            + kv_line("zf"@, self.zf)
            + kv_line("country"@, self.country)
            + kv_line("user"@, self.user)
            + kv_line("wk"@, self.wk)
    }

    /// The body of a login request to the dashboard: the account and device
    /// fields, one line each, in the order of that request.
    pub open spec fn request_body(self) -> Seq<char> {
        kv_line("tankIDName"@, self.tank_id_name)
            + kv_line("tankIDPass"@, self.tank_id_pass)
            + kv_line("requestedName"@, self.requested_name)
            + kv_line("f"@, self.f)
            + kv_line("protocol"@, self.protocol)
            + kv_line("game_version"@, self.game_version)
            + kv_line("fz"@, self.fz)
            + kv_line("lmode"@, self.lmode)
            + kv_line("cbits"@, self.cbits)
            + kv_line("player_age"@, self.player_age)
            + kv_line("GDPR"@, self.gdpr)
            + kv_line("category"@, self.category)
            + kv_line("total_playtime"@, self.total_playtime)
            + kv_line("klv"@, self.klv)
            + kv_line("hash2"@, self.hash2)
            + kv_line("meta"@, self.meta)
            + kv_line("fhash"@, self.fhash)
            + kv_line("rid"@, self.rid)
            + kv_line("platformID"@, self.platform_id)
            + kv_line("deviceVersion"@, self.device_version)
            + kv_line("country"@, self.country)
            + kv_line("hash"@, self.hash)
            + kv_line("mac"@, self.mac)
            + kv_line("wk"@, self.wk)
            + kv_line("zf"@, self.zf)
    }
}

/// The lightweight message that resumes a session: the protocol number, the
/// session token and the platform, one line each.
pub open spec fn resume_message(token: Seq<char>) -> Seq<char> {
    kv_line("protocol"@, "209"@) + kv_line("ltoken"@, token) + kv_line("platformID"@, "0,1,1"@)
}

/// Writes the lightweight message that resumes a session with `token`.
pub fn resume_text(token: &str) -> (r: String)
    ensures
        r@ == resume_message(token@),
{
    let mut out = String::new();
    push_line(&mut out, "protocol", "209");
    push_line(&mut out, "ltoken", token);
    push_line(&mut out, "platformID", "0,1,1");
    assert(out@ =~= resume_message(token@));
    out
}

fn names(key: &String, name: &str) -> (r: bool)
    ensures
        r == (key@ == name@),
{
    let other = String::from_str(name);
    *key == other
}

impl LoginInfo {
    /// A fingerprint with every field empty.
    pub fn new() -> (r: LoginInfo)
        ensures
            r@ == LoginFields::blank(),
    {
        LoginInfo {
            uuid: String::new(),
            protocol: String::new(),
            fhash: String::new(),
            mac: String::new(),
            requested_name: String::new(),
            hash2: String::new(),
            fz: String::new(),
            f: String::new(),
            player_age: String::new(),
            game_version: String::new(),
            lmode: String::new(),
            cbits: String::new(),
            rid: String::new(),
            gdpr: String::new(),
            hash: String::new(),
            category: String::new(),
            token: String::new(),
            total_playtime: String::new(),
            door_id: String::new(),
            klv: String::new(),
            meta: String::new(),
            platform_id: String::new(),
            device_version: String::new(),
            zf: String::new(),
            country: String::new(),
            user: String::new(),
            wk: String::new(),
            tank_id_name: String::new(),
            tank_id_pass: String::new(),
        }
    }

    /// Gives `value` to the field that `key` names. Returns whether `key`
    /// names a field; if not, nothing changes.
    pub fn set(&mut self, key: &str, value: String) -> (known: bool)
        ensures
            final(self)@ == old(self)@.with(key@, value@),
            known == LoginFields::is_key(key@),
    {
        let key = String::from_str(key);
        if names(&key, "UUIDToken") {
            self.uuid = value;
            true
        } else if names(&key, "protocol") {
            self.protocol = value;
            true
        } else if names(&key, "fhash") {
            self.fhash = value;
            true
        } else if names(&key, "mac") {
            self.mac = value;
            true
        } else if names(&key, "requestedName") {
            self.requested_name = value;
            true
        } else if names(&key, "hash2") {
            self.hash2 = value;
            true
        } else if names(&key, "fz") {
            self.fz = value;
            true
        } else if names(&key, "f") {
            self.f = value;
            true
        } else if names(&key, "player_age") {
            self.player_age = value;
            true
        } else if names(&key, "game_version") {
            self.game_version = value;
            true
        } else if names(&key, "lmode") {
            self.lmode = value;
            true
        } else if names(&key, "cbits") {
            self.cbits = value;
            true
        } else if names(&key, "rid") {
            self.rid = value;
            true
        } else if names(&key, "GDPR") {
            self.gdpr = value;
            true
        } else if names(&key, "hash") {
            self.hash = value;
            true
        } else if names(&key, "category") {
            self.category = value;
            true
        } else if names(&key, "token") {
            self.token = value;
            true
        } else if names(&key, "total_playtime") {
            self.total_playtime = value;
            true
        } else if names(&key, "door_id") {
            self.door_id = value;
            true
        } else if names(&key, "klv") {
            self.klv = value;
            true
        } else if names(&key, "meta") {
            self.meta = value;
            true
        } else if names(&key, "platformID") {
            self.platform_id = value;
            true
        } else if names(&key, "deviceVersion") {
            self.device_version = value;
            true
        } else if names(&key, "zf") {
            self.zf = value;
            true
        } else if names(&key, "country") {
            self.country = value;
            true
        } else if names(&key, "user") {
            self.user = value;
            true
        } else if names(&key, "wk") {
            self.wk = value;
            true
        } else if names(&key, "tankIDName") {
            self.tank_id_name = value;
            true
        } else if names(&key, "tankIDPass") {
            self.tank_id_pass = value;
            true
        } else {
            false
        }
    }

    /// Reads `key|value` lines and gives each value to the field that its key
    /// names, in the order of the lines; other lines are passed over.
    pub fn update(&mut self, data: &str)
        ensures
            final(self)@ == old(self)@.with_all(pairs_of(data@)),
    {
        let pairs = parse_pairs(data);
        let n: usize = pairs.len();
        let mut i: usize = 0;
        assert(pairs_view(pairs@).take(0) =~= Seq::<(Seq<char>, Seq<char>)>::empty());
        while i < n
            invariant
                n == pairs@.len(),
                i <= n,
                self@ == old(self)@.with_all(pairs_view(pairs@).take(i as int)),
            decreases n - i,
        {
            let ghost upto = pairs_view(pairs@).take(i + 1);
            assert(upto.drop_last() =~= pairs_view(pairs@).take(i as int));
            assert(upto.last() == (pairs@[i as int].0@, pairs@[i as int].1@));
            let value = pairs[i].1.clone();
            self.set(pairs[i].0.as_str(), value);
            i += 1;
        }
        assert(pairs_view(pairs@).take(n as int) =~= pairs_view(pairs@));
    }

    /// Writes the full handshake.
    pub fn handshake(&self) -> (r: String)
        ensures
            r@ == self@.handshake(),
    {
        let mut out = String::new();
        push_line(&mut out, "UUIDToken", self.uuid.as_str());
        assert(out@ =~= kv_line("UUIDToken"@, self.uuid@));
        push_line(&mut out, "protocol", self.protocol.as_str());
        push_line(&mut out, "fhash", self.fhash.as_str());
        push_line(&mut out, "mac", self.mac.as_str());
        push_line(&mut out, "requestedName", self.requested_name.as_str());
        push_line(&mut out, "hash2", self.hash2.as_str());
        push_line(&mut out, "fz", self.fz.as_str());
        push_line(&mut out, "f", self.f.as_str());
        push_line(&mut out, "player_age", self.player_age.as_str());
        push_line(&mut out, "game_version", self.game_version.as_str());
        push_line(&mut out, "lmode", self.lmode.as_str());
        push_line(&mut out, "cbits", self.cbits.as_str());
        push_line(&mut out, "rid", self.rid.as_str());
        push_line(&mut out, "GDPR", self.gdpr.as_str());
        push_line(&mut out, "hash", self.hash.as_str());
        push_line(&mut out, "category", self.category.as_str());
        push_line(&mut out, "token", self.token.as_str());
        push_line(&mut out, "total_playtime", self.total_playtime.as_str());
        push_line(&mut out, "door_id", self.door_id.as_str());
        push_line(&mut out, "klv", self.klv.as_str());
        push_line(&mut out, "meta", self.meta.as_str());
        push_line(&mut out, "platformID", self.platform_id.as_str());
        push_line(&mut out, "deviceVersion", self.device_version.as_str());
        push_line(&mut out, "zf", self.zf.as_str());
        push_line(&mut out, "country", self.country.as_str());
        push_line(&mut out, "user", self.user.as_str());
        push_line(&mut out, "wk", self.wk.as_str());
        out
    }

    /// Writes the body of a login request to the dashboard.
    pub fn to_string(&self) -> (r: String)
        ensures
            r@ == self@.request_body(),
    {
        let mut out = String::new();
        push_line(&mut out, "tankIDName", self.tank_id_name.as_str());
        assert(out@ =~= kv_line("tankIDName"@, self.tank_id_name@));
        push_line(&mut out, "tankIDPass", self.tank_id_pass.as_str());
        push_line(&mut out, "requestedName", self.requested_name.as_str());
        push_line(&mut out, "f", self.f.as_str());
        push_line(&mut out, "protocol", self.protocol.as_str());
        push_line(&mut out, "game_version", self.game_version.as_str());
        push_line(&mut out, "fz", self.fz.as_str());
        push_line(&mut out, "lmode", self.lmode.as_str());
        push_line(&mut out, "cbits", self.cbits.as_str());
        push_line(&mut out, "player_age", self.player_age.as_str());
        push_line(&mut out, "GDPR", self.gdpr.as_str());
        push_line(&mut out, "category", self.category.as_str());
        push_line(&mut out, "total_playtime", self.total_playtime.as_str());
        push_line(&mut out, "klv", self.klv.as_str());
        push_line(&mut out, "hash2", self.hash2.as_str());
        push_line(&mut out, "meta", self.meta.as_str());
        push_line(&mut out, "fhash", self.fhash.as_str());
        push_line(&mut out, "rid", self.rid.as_str());
        push_line(&mut out, "platformID", self.platform_id.as_str());
        push_line(&mut out, "deviceVersion", self.device_version.as_str());
        push_line(&mut out, "country", self.country.as_str());
        push_line(&mut out, "hash", self.hash.as_str());
        push_line(&mut out, "mac", self.mac.as_str());
        push_line(&mut out, "wk", self.wk.as_str());
        push_line(&mut out, "zf", self.zf.as_str());
        out
    }
}

impl Default for LoginInfo {
    fn default() -> (r: LoginInfo)
        ensures
            r@ == LoginFields::blank(),
    {
        LoginInfo::new()
    }
}

} // verus!
