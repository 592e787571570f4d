use vstd::prelude::*;

verus! {

/// The key under which a storage backend is resolved and cached: one per
/// scheme, and one per bucket for the cloud stores.
#[derive(Clone, Debug, PartialEq, Eq, Hash)]
pub enum ObjectStoreKey {
    Local,
    Memory,
    Aws { bucket: String, region: Option<String>, virtual_hosted_style_request: bool },
    Gcs { bucket: String },
}

/// Why a location has no backend key.
#[derive(Clone, Copy, Debug, PartialEq, Eq, Structural)]
pub enum KeyError {
    /// The scheme names no supported store.
    UnsupportedScheme,
    /// A cloud location names no bucket.
    MissingHost,
}

/// The model of an [`ObjectStoreKey`].
pub enum KeyModel {
    Local,
    Memory,
    Aws { bucket: Seq<char>, region: Option<Seq<char>>, virtual_hosted_style_request: bool },
    Gcs { bucket: Seq<char> },
}

impl View for ObjectStoreKey {
    type V = KeyModel;

    open spec fn view(&self) -> KeyModel {
        match self {
            ObjectStoreKey::Local => KeyModel::Local,
            ObjectStoreKey::Memory => KeyModel::Memory,
            ObjectStoreKey::Aws { bucket, region, virtual_hosted_style_request } => KeyModel::Aws {
                bucket: bucket@,
                region: match region {
                    Some(r) => Some(r@),
                    None => None,
                },
                virtual_hosted_style_request: *virtual_hosted_style_request,
            },
            ObjectStoreKey::Gcs { bucket } => KeyModel::Gcs { bucket: bucket@ },
        }
    }
}

/// The key of a location with URL scheme `scheme` and host `host`:
/// `file` and `mem` are served locally whatever the host; `s3` and `gs` name
/// their bucket by the host.
pub open spec fn key_of(scheme: Seq<char>, host: Option<Seq<char>>) -> Result<KeyModel, KeyError> {
    if scheme == "file"@ {
        Ok(KeyModel::Local)
    } else if scheme == "mem"@ {
        Ok(KeyModel::Memory)
    } else if scheme == "s3"@ || scheme == "gs"@ {
        match host {
            None => Err(KeyError::MissingHost),
            Some(h) => if scheme == "s3"@ {
                Ok(KeyModel::Aws { bucket: h, region: None, virtual_hosted_style_request: false })
            } else {
                Ok(KeyModel::Gcs { bucket: h })
            },
        }
    } else {
        Err(KeyError::UnsupportedScheme)
    }
}

impl ObjectStoreKey {
    /// The key of a location, from its URL scheme and host.
    pub fn from_parts(scheme: &String, host: Option<String>) -> (r: Result<ObjectStoreKey, KeyError>)
        ensures
            match r {
                Ok(k) => key_of(scheme@, match host {
                    Some(h) => Some(h@),
                    None => None,
                }) == Ok::<KeyModel, KeyError>(k@),
                Err(e) => key_of(scheme@, match host {
                    Some(h) => Some(h@),
                    None => None,
                }) == Err::<KeyModel, KeyError>(e),
            },
    {
        let file = "file".to_owned();
        let mem = "mem".to_owned();
        let s3 = "s3".to_owned();
        let gs = "gs".to_owned();
        proof {
            reveal_strlit("file");
            reveal_strlit("mem");
            reveal_strlit("s3");
            reveal_strlit("gs");
        }
        if *scheme == file {
            Ok(ObjectStoreKey::Local)
        } else if *scheme == mem {
            Ok(ObjectStoreKey::Memory)
        } else if *scheme == s3 {
            match host {
                Some(bucket) => Ok(
                    ObjectStoreKey::Aws { bucket, region: None, virtual_hosted_style_request: false },
                ),
                None => Err(KeyError::MissingHost),
            }
        } else if *scheme == gs {
            match host {
                Some(bucket) => Ok(ObjectStoreKey::Gcs { bucket }),
                None => Err(KeyError::MissingHost),
            }
        } else {
            Err(KeyError::UnsupportedScheme)
        }
    }
}

} // verus!
