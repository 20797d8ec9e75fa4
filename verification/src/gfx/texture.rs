use vstd::prelude::*;

verus! {

/// A handle to a texture that lives on the graphics device: an identity and
/// the texture's size in pixels. Two handles name the same texture exactly
/// when their identities are equal.
#[derive(Debug, Clone, Copy, PartialEq, Eq, Structural)]
pub struct Texture {
    pub id: u64,
    pub width: u32,
    pub height: u32,
}

impl Texture {
    pub fn new(id: u64, width: u32, height: u32) -> (texture: Self)
        ensures
            texture == (Texture { id, width, height }),
    {
        Texture { id, width, height }
    }

    pub fn id(&self) -> (id: u64)
        ensures
            id == self.id,
    {
        self.id
    }

    pub fn width(&self) -> (width: u32)
        ensures
            width == self.width,
    {
        self.width
    }

    pub fn height(&self) -> (height: u32)
        ensures
            height == self.height,
    {
        self.height
    }

    /// Whether both handles name the same texture.
    pub open spec fn same(self, other: Texture) -> bool {
        self.id == other.id
    }

    pub fn is(&self, other: &Texture) -> (same: bool)
        ensures
            same == self.same(*other),
    {
        self.id == other.id
    }
}

/// Hands out the identities of the textures that are uploaded to one
/// graphics device, each once: 0 first, then the next number.
#[derive(Debug)]
pub struct TextureRegistry {
    next: u64,
}

impl TextureRegistry {
    /// How many identities were handed out.
    pub closed spec fn issued(&self) -> nat {
        self.next as nat
    }

    /// Whether the identity of `texture` is one that was handed out.
    pub open spec fn knows(&self, texture: Texture) -> bool {
        texture.id < self.issued()
    }

    /// A registry that has handed out nothing.
    pub fn new() -> (registry: Self)
        ensures
            registry.issued() == 0,
    {
        TextureRegistry { next: 0 }
    }

    /// Hands out the handle of a texture of the given size, with an identity
    /// that no handle before it has, unless the identities have run out.
    pub fn register(&mut self, width: u32, height: u32) -> (texture: Option<Texture>)
        ensures
            match texture {
                Some(texture) => texture == (Texture { id: old(self).issued() as u64, width, height })
                    && final(self).issued() == old(self).issued() + 1,
                None => old(self).issued() == u64::MAX && final(self).issued() == old(self).issued(),
            },
    {
        if self.next == u64::MAX {
            return None;
        }
        let id = self.next;
        self.next = id + 1;
        Some(Texture { id, width, height })
    }

    /// How many identities were handed out.
    pub fn len(&self) -> (count: u64)
        ensures
            count == self.issued(),
    {
        self.next
    }

    /// Two textures that a registry hands out one after the other, with
    /// whatever it hands out between them, are not the same texture, and the
    /// registry knows both from then on.
    pub proof fn law_fresh(
        before: &TextureRegistry,
        between: &TextureRegistry,
        after: &TextureRegistry,
        first: Texture,
        second: Texture,
    )
        requires
            first.id == before.issued(),
            between.issued() > before.issued(),
            second.id == between.issued(),
            after.issued() > between.issued(),
        ensures
            !first.same(second),
            !before.knows(first),
            !between.knows(second),
            after.knows(first),
            after.knows(second),
    {
    }
}

} // verus!
