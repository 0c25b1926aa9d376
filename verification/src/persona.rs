//! The persona configuration and its rendering into a prompt preamble.
//!
//! A persona is a named behavioural profile: tone, directives and policy
//! text.  It is rendered once, at session construction, into the preamble
//! that precedes every prompt of the session.  The field order of the
//! rendering is a compatibility contract: changing it changes model
//! behaviour.

use vstd::prelude::*;
use vstd::string::StringExecFns;

verus! {

/// A persona: a named behavioural profile applied as a preamble to every
/// prompt in a session.  Immutable once loaded.
#[derive(Debug, Clone, PartialEq)]
pub struct PersonaConfig {
    pub name: String,
    pub description: String,
    pub tone: String,
    pub directives: Vec<String>,
    pub nsfw_policy: String,
    pub censorship: String,
    pub disclaimer_policy: String,
    pub tagline: String,
    pub response_directive: String,
}

/// The mathematical content of a `PersonaConfig`: each field as a
/// character sequence.
pub struct PersonaConfigView {
    pub name: Seq<char>,
    pub description: Seq<char>,
    pub tone: Seq<char>,
    pub directives: Seq<Seq<char>>,
    pub nsfw_policy: Seq<char>,
    pub censorship: Seq<char>,
    pub disclaimer_policy: Seq<char>,
    pub tagline: Seq<char>,
    pub response_directive: Seq<char>,
}

impl View for PersonaConfig {
    type V = PersonaConfigView;

    open spec fn view(&self) -> PersonaConfigView {
        PersonaConfigView {
            name: self.name@,
            description: self.description@,
            tone: self.tone@,
            directives: self.directives.deep_view(),
            nsfw_policy: self.nsfw_policy@,
            censorship: self.censorship@,
            disclaimer_policy: self.disclaimer_policy@,
            tagline: self.tagline@,
            response_directive: self.response_directive@,
        }
    }
}

/// The directive lines joined with the bullet separator, in order.
pub open spec fn joined_directives(ds: Seq<Seq<char>>) -> Seq<char>
    decreases ds.len(),
{
    if ds.len() == 0 {
        Seq::empty()
    } else if ds.len() == 1 {
        ds[0]
    } else {
        joined_directives(ds.drop_last()) + "\n- "@ + ds.last()
    }
}

/// The preamble rendered from a persona, concatenated in the fixed order:
/// description, tone, the bulleted directives (each prefixed `- `), the
/// nsfw-policy line, censorship, disclaimer policy, tagline and response
/// directive.
pub open spec fn preamble_spec(c: PersonaConfigView) -> Seq<char> {
    c.description + "\n"@ + c.tone + "\n\n- "@ + joined_directives(c.directives) + "\n"@
        + "nsfw_policy"@ + c.nsfw_policy + "\n"@ + c.censorship + "\n"@ + c.disclaimer_policy
        + "\n"@ + c.tagline + "\n"@ + c.response_directive
}

/// Renders the persona into the preamble, in the fixed field order that
/// `preamble_spec` states.
pub fn render_preamble(c: &PersonaConfig) -> (r: String)
    ensures
        r@ == preamble_spec(c@),
{
    let mut out = String::new();
    out.append(c.description.as_str());
    out.append("\n");
    out.append(c.tone.as_str());
    out.append("\n\n- ");
    let ghost prefix: Seq<char> = out@;
    let mut i: usize = 0;
    proof {
        assert(out@ =~= prefix + joined_directives(c@.directives.take(0)));
    }
    while i < c.directives.len()
        invariant
            i <= c.directives.len(),
            out@ == prefix + joined_directives(c@.directives.take(i as int)),
            c@.directives.len() == c.directives.len(),
            c@.directives == c.directives.deep_view(),
        decreases c.directives.len() - i,
    {
        if i > 0 {
            out.append("\n- ");
        }
        out.append(c.directives[i].as_str());
        proof {
            let ds = c@.directives;
            assert(ds.take(i + 1).drop_last() =~= ds.take(i as int));
            assert(ds.take(i + 1).last() == ds[i as int]);
            if i == 0 {
                assert(joined_directives(ds.take(1)) == ds[0]);
                assert(out@ =~= prefix + joined_directives(ds.take(1)));
            } else {
                assert(joined_directives(ds.take(i + 1)) == joined_directives(ds.take(i as int))
                    + "\n- "@ + ds[i as int]);
            }
        }
        i = i + 1;
    }
    proof {
        assert(c@.directives.take(c.directives.len() as int) =~= c@.directives);
    }
    out.append("\n");
    out.append("nsfw_policy");
    out.append(c.nsfw_policy.as_str());
    out.append("\n");
    out.append(c.censorship.as_str());
    out.append("\n");
    out.append(c.disclaimer_policy.as_str());
    out.append("\n");
    out.append(c.tagline.as_str());
    out.append("\n");
    out.append(c.response_directive.as_str());
    proof {
        assert(out@ =~= preamble_spec(c@));
    }
    out
}

} // verus!
