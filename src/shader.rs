//! A linked shader program and the uniform locations looked up in it.

use vstd::prelude::*;

verus! {

/// The location recorded for `name`: the first entry under that name.
pub open spec fn find_uniform(entries: Seq<(Seq<char>, i32)>, name: Seq<char>) -> Option<i32>
    decreases entries.len(),
{
    if entries.len() == 0 {
        None
    } else if entries[0].0 == name {
        Some(entries[0].1)
    } else {
        find_uniform(entries.drop_first(), name)
    }
}

/// A shader program, by its driver id, with the uniform locations that
/// have been looked up in it so far.
pub struct Shader {
    shader_id: u32,
    uniforms: Vec<(String, i32)>,
}

impl Shader {
    /// The program's driver id.
    pub closed spec fn spec_id(&self) -> u32 {
        self.shader_id
    }

    /// The recorded uniform names and locations, in the order recorded.
    pub closed spec fn uniforms(&self) -> Seq<(Seq<char>, i32)> {
        self.uniforms@.map_values(|e: (String, i32)| (e.0@, e.1))
    }

    /// A program with nothing recorded yet.
    pub fn from_id(shader_id: u32) -> (r: Shader)
        ensures
            r.spec_id() == shader_id,
            r.uniforms() == Seq::<(Seq<char>, i32)>::empty(),
    {
        let r = Shader { shader_id, uniforms: Vec::new() };
        proof {
            assert(r.uniforms() =~= Seq::<(Seq<char>, i32)>::empty());
        }
        r
    }

    pub fn id(&self) -> (r: u32)
        ensures
            r == self.spec_id(),
    {
        self.shader_id
    }

    /// The location recorded for a uniform, if it has been looked up before.
    pub fn cached_uniform_location(&self, uniform_name: &str) -> (r: Option<i32>)
        ensures
            r == find_uniform(self.uniforms(), uniform_name@),
    {
        let name = uniform_name.to_owned();
        let n = self.uniforms.len();
        let mut i: usize = 0;
        proof {
            assert(self.uniforms().subrange(0, n as int) =~= self.uniforms());
        }
        while i < n
            invariant
                n == self.uniforms@.len(),
                i <= n,
                name@ == uniform_name@,
                find_uniform(self.uniforms(), uniform_name@) == find_uniform(
                    self.uniforms().subrange(i as int, n as int),
                    uniform_name@,
                ),
            decreases n - i,
        {
            let entry = &self.uniforms[i];
            proof {
                let rest = self.uniforms().subrange(i as int, n as int);
                assert(rest[0] == (entry.0@, entry.1));
                assert(rest.drop_first() =~= self.uniforms().subrange(i + 1, n as int));
            }
            if entry.0 == name {
                return Some(entry.1);
            }
            i = i + 1;
        }
        proof {
            assert(self.uniforms().subrange(n as int, n as int) =~= Seq::<(Seq<char>, i32)>::empty());
        }
        None
    }

    /// Records the location found for a uniform, after those recorded before.
    pub fn remember_uniform_location(&mut self, uniform_name: &str, location: i32)
        ensures
            final(self).spec_id() == old(self).spec_id(),
            final(self).uniforms() == old(self).uniforms().push((uniform_name@, location)),
    {
        self.uniforms.push((uniform_name.to_owned(), location));
        proof {
            assert(self.uniforms() =~= old(self).uniforms().push((uniform_name@, location)));
        }
    }
}

} // verus!
