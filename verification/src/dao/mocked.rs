//! The mocked entity store: one fixed entity for any lookup, used for demos
//! and health probes.

use vstd::prelude::*;

use crate::dao::Dao;
use crate::dao::entity::{Builder, Entity};
use crate::dao::errors::{GetError, GetRandomError};
use crate::repository::models::byte_len;
use vstd::utf8::{is_ascii_chars, is_ascii_chars_encode_utf8};

verus! {

/// An entity store that answers every lookup with one fixed entity.
pub struct MockedDao {}

/// The fixed title served by the mocked stores.
pub open spec fn mocked_title() -> Seq<char> {
    "About smoking"@
}

/// The fixed body served by the mocked stores.
pub open spec fn mocked_body() -> Seq<char> {
    r#"The phrase "smoking kills" is a direct statement about the severe health risks of tobacco use
Smoking is a leading cause of preventable death globally, leading to cancer, heart disease, stroke, and lung diseases like emphysema"#@
}

/// The fixed texts satisfy the entity bounds: the title is 13 ASCII bytes
/// and the body 227 ASCII bytes.
pub proof fn lemma_mocked_text_valid()
    ensures
        1 <= byte_len(mocked_title()) <= 64,
        1 <= byte_len(mocked_body()) <= 2048,
{
    reveal_strlit("About smoking");
    reveal_strlit(
        r#"The phrase "smoking kills" is a direct statement about the severe health risks of tobacco use
Smoking is a leading cause of preventable death globally, leading to cancer, heart disease, stroke, and lung diseases like emphysema"#,
    );
    assert(is_ascii_chars(mocked_title()));
    assert(is_ascii_chars(mocked_body()));
    is_ascii_chars_encode_utf8(mocked_title());
    is_ascii_chars_encode_utf8(mocked_body());
}

impl MockedDao {
    /// Assembles the fixed entity under the given identifier.
    fn fixed_entity(id: u64) -> (r: Entity)
        requires
            id > 0,
        ensures
            r.spec_id() == id,
            r.spec_title() == mocked_title(),
            r.spec_body() == mocked_body(),
    {
        proof {
            lemma_mocked_text_valid();
        }
        let built = Builder::new().id(id).title("About smoking".to_owned()).body(
            r#"The phrase "smoking kills" is a direct statement about the severe health risks of tobacco use
Smoking is a leading cause of preventable death globally, leading to cancer, heart disease, stroke, and lung diseases like emphysema"#.to_owned(),
        ).build();
        built.unwrap()
    }
}

impl Dao for MockedDao {
    open spec fn get_post(&self, id: u64, r: Result<Entity, GetError>) -> bool {
        if id > 0 {
            match r {
                Ok(e) => e.spec_id() == id && e.spec_title() == mocked_title() && e.spec_body()
                    == mocked_body(),
                Err(_) => false,
            }
        } else {
            r == Err::<Entity, GetError>(GetError::NoSuchEntity { id })
        }
    }

    open spec fn get_random_post(&self, r: Result<Entity, GetRandomError>) -> bool {
        match r {
            Ok(e) => e.spec_id() == 42 && e.spec_title() == mocked_title() && e.spec_body()
                == mocked_body(),
            Err(_) => false,
        }
    }

    fn get(&self, id: u64) -> (r: Result<Entity, GetError>) {
        if id == 0 {
            Err(GetError::NoSuchEntity { id })
        } else {
            Ok(Self::fixed_entity(id))
        }
    }

    fn get_random(&self) -> (r: Result<Entity, GetRandomError>) {
        Ok(Self::fixed_entity(42))
    }
}

} // verus!
