//! Character creation in the layout ACE reads: heritage and gender as
//! `u32`, and no account string inside the result (ACE reads it from the
//! outer Character_SendCharGenResult message).

use vstd::prelude::*;
use crate::wire::{u32_le, u64_le, ac_string_bytes, push_u32, push_u32_onto, push_u64_onto, push_string_onto};

verus! {

/// A raw skill advancement class; ACE accepts 0 for an inactive skill.
#[derive(Clone, Copy, Debug, PartialEq, Eq, Structural)]
pub struct RawSkillAdvancementClass(pub u32);

/// A counted list of skill classes: the count is written as given, then each item.
#[derive(Clone, Debug)]
pub struct PackableList {
    pub count: u32,
    pub list: Vec<RawSkillAdvancementClass>,
}

/// The bytes of a list of skill classes, one `u32` each.
pub open spec fn skills_bytes(items: Seq<RawSkillAdvancementClass>) -> Seq<u8>
    decreases items.len(),
{
    if items.len() == 0 {
        Seq::empty()
    } else {
        skills_bytes(items.drop_last()) + u32_le(items.last().0)
    }
}

impl RawSkillAdvancementClass {
    /// Append the class as a little-endian `u32`.
    pub fn write(&self, out: &mut Vec<u8>)
        ensures
            final(out)@ == old(out)@ + u32_le(self.0),
    {
        push_u32(out, self.0);
    }
}

impl PackableList {
    /// A copy of the list.
    pub fn duplicate(&self) -> (r: PackableList)
        ensures
            r.count == self.count,
            r.list@ == self.list@,
    {
        let list = self.list.clone();
        proof { assert(list@ =~= self.list@); }
        PackableList { count: self.count, list }
    }

    /// The count, then each class.
    pub open spec fn bytes_spec(self) -> Seq<u8> {
        u32_le(self.count) + skills_bytes(self.list@)
    }

    /// Append the count, then each class.
    pub fn write(&self, out: &mut Vec<u8>)
        ensures
            final(out)@ == old(out)@ + self.bytes_spec(),
    {
        push_u32(out, self.count);
        let ghost start = out@;
        let mut i: usize = 0;
        while i < self.list.len()
            invariant
                i <= self.list.len(),
                out@ == start + skills_bytes(self.list@.take(i as int)),
            decreases self.list.len() - i,
        {
            self.list[i].write(out);
            proof {
                assert(self.list@.take(i as int + 1).drop_last() == self.list@.take(i as int));
                assert(out@ =~= start + skills_bytes(self.list@.take(i as int + 1)));
            }
            i = i + 1;
        }
        proof {
            assert(self.list@.take(self.list.len() as int) == self.list@);
            assert(out@ =~= old(out)@ + self.bytes_spec());
        }
    }
}

/// An ACE-compatible CharGenResult.
#[derive(Clone, Debug)]
pub struct AceCharGenResult {
    pub one: u32,
    /// Sent as a `u32`, as ACE reads it.
    pub heritage_group: u32,
    /// Sent as a `u32`, as ACE reads it.
    pub gender: u32,
    pub eyes_strip: u32,
    pub nose_strip: u32,
    pub mouth_strip: u32,
    pub hair_color: u32,
    pub eye_color: u32,
    pub hair_style: u32,
    pub headgear_style: u32,
    pub headgear_color: u32,
    pub shirt_style: u32,
    pub shirt_color: u32,
    pub trousers_style: u32,
    pub trousers_color: u32,
    pub footwear_style: u32,
    pub footwear_color: u32,
    pub skin_shade: u64,
    pub hair_shade: u64,
    pub headgear_shade: u64,
    pub shirt_shade: u64,
    pub trousers_shade: u64,
    pub tootwear_shade: u64,
    pub template_num: u32,
    pub strength: u32,
    pub endurance: u32,
    pub coordination: u32,
    pub quickness: u32,
    pub focus: u32,
    pub self_: u32,
    pub slot: u32,
    pub class_id: u32,
    pub skills: PackableList,
    pub name: String,
    pub start_area: u32,
    pub is_admin: u32,
    pub is_envoy: u32,
    pub validation: u32,
}

/// The character generation choices, with heritage and gender by number.
#[derive(Clone, Debug)]
pub struct AceCharGenConfig {
    /// The heritage group's numeric value.
    pub heritage: u32,
    /// The gender's numeric value.
    pub gender: u32,
    pub eyes_strip: u32,
    pub nose_strip: u32,
    pub mouth_strip: u32,
    pub hair_color: u32,
    pub eye_color: u32,
    pub hair_style: u32,
    pub headgear_style: u32,
    pub headgear_color: u32,
    pub shirt_style: u32,
    pub shirt_color: u32,
    pub trousers_style: u32,
    pub trousers_color: u32,
    pub footwear_style: u32,
    pub footwear_color: u32,
    pub skin_shade: u64,
    pub hair_shade: u64,
    pub headgear_shade: u64,
    pub shirt_shade: u64,
    pub trousers_shade: u64,
    pub tootwear_shade: u64,
    pub template_num: u32,
    pub strength: u32,
    pub endurance: u32,
    pub coordination: u32,
    pub quickness: u32,
    pub focus: u32,
    pub self_: u32,
    pub slot: u32,
    pub class_id: u32,
    pub skills: PackableList,
    pub name: String,
    pub start_area: u32,
    pub is_admin: u32,
    pub is_envoy: u32,
    pub validation: u32,
}

impl AceCharGenResult {

    /// Equal in every field, the skill list compared by its items.
    pub open spec fn same_as(self, other: AceCharGenResult) -> bool {
        &&& self == (AceCharGenResult { skills: self.skills, ..other })
        &&& self.skills.count == other.skills.count
        &&& self.skills.list@ == other.skills.list@
    }

    /// A field-by-field copy.
    pub fn duplicate(&self) -> (r: AceCharGenResult)
        ensures
            r.same_as(*self),
    {
        AceCharGenResult { one: self.one, heritage_group: self.heritage_group, gender: self.gender, eyes_strip: self.eyes_strip, nose_strip: self.nose_strip, mouth_strip: self.mouth_strip, hair_color: self.hair_color, eye_color: self.eye_color, hair_style: self.hair_style, headgear_style: self.headgear_style, headgear_color: self.headgear_color, shirt_style: self.shirt_style, shirt_color: self.shirt_color, trousers_style: self.trousers_style, trousers_color: self.trousers_color, footwear_style: self.footwear_style, footwear_color: self.footwear_color, skin_shade: self.skin_shade, hair_shade: self.hair_shade, headgear_shade: self.headgear_shade, shirt_shade: self.shirt_shade, trousers_shade: self.trousers_shade, tootwear_shade: self.tootwear_shade, template_num: self.template_num, strength: self.strength, endurance: self.endurance, coordination: self.coordination, quickness: self.quickness, focus: self.focus, self_: self.self_, slot: self.slot, class_id: self.class_id, skills: self.skills.duplicate(), name: self.name.clone(), start_area: self.start_area, is_admin: self.is_admin, is_envoy: self.is_envoy, validation: self.validation }
    }
    /// The result for `config`: a leading 1, then every choice as given.
    pub fn from_generic(config: AceCharGenConfig) -> (r: AceCharGenResult)
        ensures
            r.one == 1,
            r.heritage_group == config.heritage,
            r.gender == config.gender,
            r.eyes_strip == config.eyes_strip,
            r.nose_strip == config.nose_strip,
            r.mouth_strip == config.mouth_strip,
            r.hair_color == config.hair_color,
            r.eye_color == config.eye_color,
            r.hair_style == config.hair_style,
            r.headgear_style == config.headgear_style,
            r.headgear_color == config.headgear_color,
            r.shirt_style == config.shirt_style,
            r.shirt_color == config.shirt_color,
            r.trousers_style == config.trousers_style,
            r.trousers_color == config.trousers_color,
            r.footwear_style == config.footwear_style,
            r.footwear_color == config.footwear_color,
            r.skin_shade == config.skin_shade,
            r.hair_shade == config.hair_shade,
            r.headgear_shade == config.headgear_shade,
            r.shirt_shade == config.shirt_shade,
            r.trousers_shade == config.trousers_shade,
            r.tootwear_shade == config.tootwear_shade,
            r.template_num == config.template_num,
            r.strength == config.strength,
            r.endurance == config.endurance,
            r.coordination == config.coordination,
            r.quickness == config.quickness,
            r.focus == config.focus,
            r.self_ == config.self_,
            r.slot == config.slot,
            r.class_id == config.class_id,
            r.skills == config.skills,
            r.name == config.name,
            r.start_area == config.start_area,
            r.is_admin == config.is_admin,
            r.is_envoy == config.is_envoy,
            r.validation == config.validation,
    {
        let AceCharGenConfig { heritage, gender, eyes_strip, nose_strip, mouth_strip, hair_color, eye_color, hair_style, headgear_style, headgear_color, shirt_style, shirt_color, trousers_style, trousers_color, footwear_style, footwear_color, skin_shade, hair_shade, headgear_shade, shirt_shade, trousers_shade, tootwear_shade, template_num, strength, endurance, coordination, quickness, focus, self_, slot, class_id, skills, name, start_area, is_admin, is_envoy, validation } = config;
        AceCharGenResult { one: 1, heritage_group: heritage, gender, eyes_strip, nose_strip, mouth_strip, hair_color, eye_color, hair_style, headgear_style, headgear_color, shirt_style, shirt_color, trousers_style, trousers_color, footwear_style, footwear_color, skin_shade, hair_shade, headgear_shade, shirt_shade, trousers_shade, tootwear_shade, template_num, strength, endurance, coordination, quickness, focus, self_, slot, class_id, skills, name, start_area, is_admin, is_envoy, validation }
    }

    /// The bytes ACE reads: every field in declaration order, `u32` and `u64`
    /// fields little-endian, the skills as a counted list, the name as an AC string.
    pub open spec fn bytes_spec(self) -> Seq<u8> {
        u32_le(self.one)
            + u32_le(self.heritage_group)
            + u32_le(self.gender)
            + u32_le(self.eyes_strip)
            + u32_le(self.nose_strip)
            + u32_le(self.mouth_strip)
            + u32_le(self.hair_color)
            + u32_le(self.eye_color)
            + u32_le(self.hair_style)
            + u32_le(self.headgear_style)
            + u32_le(self.headgear_color)
            + u32_le(self.shirt_style)
            + u32_le(self.shirt_color)
            + u32_le(self.trousers_style)
            + u32_le(self.trousers_color)
            + u32_le(self.footwear_style)
            + u32_le(self.footwear_color)
            + u64_le(self.skin_shade)
            + u64_le(self.hair_shade)
            + u64_le(self.headgear_shade)
            + u64_le(self.shirt_shade)
            + u64_le(self.trousers_shade)
            + u64_le(self.tootwear_shade)
            + u32_le(self.template_num)
            + u32_le(self.strength)
            + u32_le(self.endurance)
            + u32_le(self.coordination)
            + u32_le(self.quickness)
            + u32_le(self.focus)
            + u32_le(self.self_)
            + u32_le(self.slot)
            + u32_le(self.class_id)
            + self.skills.bytes_spec()
            + ac_string_bytes(self.name@)
            + u32_le(self.start_area)
            + u32_le(self.is_admin)
            + u32_le(self.is_envoy)
            + u32_le(self.validation)
    }

    /// Append the ACE layout of this result.
    pub fn write(&self, out: &mut Vec<u8>)
        ensures
            final(out)@ == old(out)@ + self.bytes_spec(),
    {
        let ghost start = out@;
        push_u32(out, self.one);
        let ghost acc = u32_le(self.one);
        push_u32_onto(out, self.heritage_group, Ghost(start), Ghost(acc));
        let ghost acc = acc + u32_le(self.heritage_group);
        push_u32_onto(out, self.gender, Ghost(start), Ghost(acc));
        let ghost acc = acc + u32_le(self.gender);
        push_u32_onto(out, self.eyes_strip, Ghost(start), Ghost(acc));
        let ghost acc = acc + u32_le(self.eyes_strip);
        push_u32_onto(out, self.nose_strip, Ghost(start), Ghost(acc));
        let ghost acc = acc + u32_le(self.nose_strip);
        push_u32_onto(out, self.mouth_strip, Ghost(start), Ghost(acc));
        let ghost acc = acc + u32_le(self.mouth_strip);
        push_u32_onto(out, self.hair_color, Ghost(start), Ghost(acc));
        let ghost acc = acc + u32_le(self.hair_color);
        push_u32_onto(out, self.eye_color, Ghost(start), Ghost(acc));
        let ghost acc = acc + u32_le(self.eye_color);
        push_u32_onto(out, self.hair_style, Ghost(start), Ghost(acc));
        let ghost acc = acc + u32_le(self.hair_style);
        push_u32_onto(out, self.headgear_style, Ghost(start), Ghost(acc));
        let ghost acc = acc + u32_le(self.headgear_style);
        push_u32_onto(out, self.headgear_color, Ghost(start), Ghost(acc));
        let ghost acc = acc + u32_le(self.headgear_color);
        push_u32_onto(out, self.shirt_style, Ghost(start), Ghost(acc));
        let ghost acc = acc + u32_le(self.shirt_style);
        push_u32_onto(out, self.shirt_color, Ghost(start), Ghost(acc));
        let ghost acc = acc + u32_le(self.shirt_color);
        push_u32_onto(out, self.trousers_style, Ghost(start), Ghost(acc));
        let ghost acc = acc + u32_le(self.trousers_style);
        push_u32_onto(out, self.trousers_color, Ghost(start), Ghost(acc));
        let ghost acc = acc + u32_le(self.trousers_color);
        push_u32_onto(out, self.footwear_style, Ghost(start), Ghost(acc));
        let ghost acc = acc + u32_le(self.footwear_style);
        push_u32_onto(out, self.footwear_color, Ghost(start), Ghost(acc));
        let ghost acc = acc + u32_le(self.footwear_color);
        push_u64_onto(out, self.skin_shade, Ghost(start), Ghost(acc));
        let ghost acc = acc + u64_le(self.skin_shade);
        push_u64_onto(out, self.hair_shade, Ghost(start), Ghost(acc));
        let ghost acc = acc + u64_le(self.hair_shade);
        push_u64_onto(out, self.headgear_shade, Ghost(start), Ghost(acc));
        let ghost acc = acc + u64_le(self.headgear_shade);
        push_u64_onto(out, self.shirt_shade, Ghost(start), Ghost(acc));
        let ghost acc = acc + u64_le(self.shirt_shade);
        push_u64_onto(out, self.trousers_shade, Ghost(start), Ghost(acc));
        let ghost acc = acc + u64_le(self.trousers_shade);
        push_u64_onto(out, self.tootwear_shade, Ghost(start), Ghost(acc));
        let ghost acc = acc + u64_le(self.tootwear_shade);
        push_u32_onto(out, self.template_num, Ghost(start), Ghost(acc));
        let ghost acc = acc + u32_le(self.template_num);
        push_u32_onto(out, self.strength, Ghost(start), Ghost(acc));
        let ghost acc = acc + u32_le(self.strength);
        push_u32_onto(out, self.endurance, Ghost(start), Ghost(acc));
        let ghost acc = acc + u32_le(self.endurance);
        push_u32_onto(out, self.coordination, Ghost(start), Ghost(acc));
        let ghost acc = acc + u32_le(self.coordination);
        push_u32_onto(out, self.quickness, Ghost(start), Ghost(acc));
        let ghost acc = acc + u32_le(self.quickness);
        push_u32_onto(out, self.focus, Ghost(start), Ghost(acc));
        let ghost acc = acc + u32_le(self.focus);
        push_u32_onto(out, self.self_, Ghost(start), Ghost(acc));
        let ghost acc = acc + u32_le(self.self_);
        push_u32_onto(out, self.slot, Ghost(start), Ghost(acc));
        let ghost acc = acc + u32_le(self.slot);
        push_u32_onto(out, self.class_id, Ghost(start), Ghost(acc));
        let ghost acc = acc + u32_le(self.class_id);
        let ghost before = out@;
        self.skills.write(out);
        proof { assert(out@ =~= start + (acc + self.skills.bytes_spec())); }
        let ghost acc = acc + self.skills.bytes_spec();
        push_string_onto(out, self.name.as_str(), Ghost(start), Ghost(acc));
        let ghost acc = acc + ac_string_bytes(self.name@);
        push_u32_onto(out, self.start_area, Ghost(start), Ghost(acc));
        let ghost acc = acc + u32_le(self.start_area);
        push_u32_onto(out, self.is_admin, Ghost(start), Ghost(acc));
        let ghost acc = acc + u32_le(self.is_admin);
        push_u32_onto(out, self.is_envoy, Ghost(start), Ghost(acc));
        let ghost acc = acc + u32_le(self.is_envoy);
        push_u32_onto(out, self.validation, Ghost(start), Ghost(acc));
        let ghost acc = acc + u32_le(self.validation);
        proof { assert(acc == self.bytes_spec()); }
        }
}

} // verus!
