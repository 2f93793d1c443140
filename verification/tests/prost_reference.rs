//! Holds the decoder against `prost` itself: a packet type implemented by
//! hand on `prost`'s own field codecs decodes the same inputs.
use prost::bytes::{Buf, BufMut};
use prost::encoding::{self, DecodeContext, WireType};
use prost::Message;
use tauri_chat::message::{ChatMessagePack, LoginMessage, Obj};
use tauri_chat::wire::decode_field;

#[derive(Debug, Default, Clone, PartialEq)]
struct RefLogin {
    user_id: i32,
    username: String,
}

impl Message for RefLogin {
    fn encode_raw<B>(&self, buf: &mut B)
    where
        B: BufMut,
        Self: Sized,
    {
        if self.user_id != 0 {
            encoding::int32::encode(1, &self.user_id, buf);
        }
        if !self.username.is_empty() {
            encoding::string::encode(2, &self.username, buf);
        }
    }

    fn merge_field<B>(
        &mut self,
        tag: u32,
        wire_type: WireType,
        buf: &mut B,
        ctx: DecodeContext,
    ) -> Result<(), prost::DecodeError>
    where
        B: Buf,
        Self: Sized,
    {
        match tag {
            1 => encoding::int32::merge(wire_type, &mut self.user_id, buf, ctx),
            2 => encoding::string::merge(wire_type, &mut self.username, buf, ctx),
            _ => encoding::skip_field(wire_type, tag, buf, ctx),
        }
    }

    fn encoded_len(&self) -> usize {
        (if self.user_id != 0 { encoding::int32::encoded_len(1, &self.user_id) } else { 0 })
            + (if !self.username.is_empty() {
                encoding::string::encoded_len(2, &self.username)
            } else {
                0
            })
    }

    fn clear(&mut self) {
        *self = RefLogin::default();
    }
}

/// A packet whose only payload kind is the login message (tag 4).
#[derive(Debug, Default, Clone, PartialEq)]
struct RefPack {
    token: String,
    msg_type: i32,
    login: Option<RefLogin>,
}

impl Message for RefPack {
    fn encode_raw<B>(&self, buf: &mut B)
    where
        B: BufMut,
        Self: Sized,
    {
        if !self.token.is_empty() {
            encoding::string::encode(2, &self.token, buf);
        }
        if self.msg_type != 0 {
            encoding::int32::encode(3, &self.msg_type, buf);
        }
        if let Some(l) = &self.login {
            encoding::message::encode(4, l, buf);
        }
    }

    fn merge_field<B>(
        &mut self,
        tag: u32,
        wire_type: WireType,
        buf: &mut B,
        ctx: DecodeContext,
    ) -> Result<(), prost::DecodeError>
    where
        B: Buf,
        Self: Sized,
    {
        match tag {
            2 => encoding::string::merge(wire_type, &mut self.token, buf, ctx),
            3 => encoding::int32::merge(wire_type, &mut self.msg_type, buf, ctx),
            4 => encoding::message::merge(
                wire_type,
                self.login.get_or_insert_with(Default::default),
                buf,
                ctx,
            ),
            _ => encoding::skip_field(wire_type, tag, buf, ctx),
        }
    }

    fn encoded_len(&self) -> usize {
        (if !self.token.is_empty() { encoding::string::encoded_len(2, &self.token) } else { 0 })
            + (if self.msg_type != 0 { encoding::int32::encoded_len(3, &self.msg_type) } else { 0 })
            + self.login.as_ref().map_or(0, |l| encoding::message::encoded_len(4, l))
    }

    fn clear(&mut self) {
        *self = RefPack::default();
    }
}

/// Whether the packet names, at its top level, one of the payload kinds
/// that the reference type does not declare (tags 5 to 10).
fn names_other_kinds(bytes: &[u8]) -> bool {
    let mut pos = 0;
    while pos < bytes.len() {
        match decode_field(bytes, pos, 100) {
            Some((tag, _, _, next)) => {
                if (5..=10).contains(&tag) {
                    return true;
                }
                pos = next;
            },
            None => return false,
        }
    }
    false
}

fn same(bytes: &[u8]) {
    if names_other_kinds(bytes) {
        return;
    }
    let ours = ChatMessagePack::decode(bytes);
    let theirs = RefPack::decode(bytes);
    match (ours, theirs) {
        (Ok(a), Ok(b)) => {
            assert_eq!(a.token, b.token, "token of {:?}", bytes);
            assert_eq!(a.msg_type, b.msg_type, "kind of {:?}", bytes);
            match (a.obj, b.login) {
                (None, None) => {},
                (Some(Obj::LoginMessage(l)), Some(r)) => {
                    assert_eq!(l.user_id, r.user_id, "user of {:?}", bytes);
                    assert_eq!(l.username, r.username, "name of {:?}", bytes);
                },
                (x, y) => panic!("payloads differ on {:?}: {:?} / {:?}", bytes, x, y),
            }
        },
        (Err(_), Err(_)) => {},
        (a, b) => panic!("outcomes differ on {:?}: {:?} / {:?}", bytes, a, b),
    }
}

/// Field fragments from which inputs are assembled.
fn fragments() -> Vec<Vec<u8>> {
    vec![
        vec![0x12, 3, b'a', b'b', b'c'],
        vec![0x12, 0],
        vec![0x12, 2, 0xc3, 0xa9],
        vec![0x12, 1, 0xff],
        vec![0x18, 6],
        vec![0x18, 0xff, 0xff, 0xff, 0xff, 0xff, 0xff, 0xff, 0xff, 0xff, 0x01],
        vec![0x18, 0x80, 0x80, 0x80, 0x80, 0x10],
        vec![0x22, 2, 0x08, 7],
        vec![0x22, 3, 0x12, 1, b'q'],
        vec![0x22, 0],
        vec![0x22, 4, 0x08, 1, 0x0b, 0x0c],
        vec![0x22, 3, 0x5d, 1, 2],
        vec![0x08, 1],
        vec![0x5d, 1, 2, 3, 4],
        vec![0x61, 1, 2, 3, 4, 5, 6, 7, 8],
        vec![0x6a, 1, 0],
        vec![0x73, 0x08, 1, 0x74],
        vec![0x73, 0x0b, 0x0c, 0x74],
        vec![0x73, 0x7c],
        vec![0x0c],
        vec![0x10, 1],
        vec![0x1a, 0],
        vec![0x20, 1],
        vec![0x0e, 1],
        vec![0x80, 0x80, 0x80, 0x80, 0x10, 1],
        vec![0x80, 0x80, 0x80, 0x80, 0x08, 1],
        vec![0x00],
    ]
}

#[test]
fn decode_agrees_with_prost_on_assembled_inputs() {
    let frags = fragments();
    same(&[]);
    for a in &frags {
        same(a);
        for b in &frags {
            let mut ab = a.clone();
            ab.extend_from_slice(b);
            same(&ab);
            // Every prefix of a pair of fragments.
            for cut in 0..ab.len() {
                same(&ab[..cut]);
            }
        }
    }
}

#[test]
fn decode_agrees_with_prost_on_pseudo_random_inputs() {
    let frags = fragments();
    let mut state: u64 = 0x2545_f491_4f6c_dd1d;
    let mut next = move || {
        state ^= state << 13;
        state ^= state >> 7;
        state ^= state << 17;
        state
    };
    for _ in 0..20000 {
        let mut input = Vec::new();
        let n = (next() % 6) as usize;
        for _ in 0..n {
            let r = next();
            if r % 5 == 0 {
                input.push((r >> 8) as u8);
            } else {
                input.extend_from_slice(&frags[(r >> 8) as usize % frags.len()]);
            }
        }
        same(&input);
    }
}

#[test]
fn encode_agrees_with_prost() {
    let cases = vec![
        ("", 0, None),
        ("tok", 3, Some((0, ""))),
        ("é", -7, Some((i32::MAX, "名字"))),
        ("x", 1, Some((i32::MIN, ""))),
    ];
    for (token, kind, login) in cases {
        let ours = ChatMessagePack {
            token: token.to_string(),
            msg_type: kind,
            obj: login.map(|(u, n): (i32, &str)| {
                Obj::LoginMessage(LoginMessage { user_id: u, username: n.to_string() })
            }),
        };
        let theirs = RefPack {
            token: token.to_string(),
            msg_type: kind,
            login: login.map(|(u, n): (i32, &str)| RefLogin { user_id: u, username: n.to_string() }),
        };
        assert_eq!(ours.encode_to_vec(), theirs.encode_to_vec());
        assert_eq!(ours.encoded_len(), theirs.encoded_len());
    }
}
