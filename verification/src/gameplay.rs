//! Streaming of images into texture arrays.
//!
//! At startup one request is made for every face and every slot that is to
//! be filled from a file ([`Gameplay::new`]), and the caller starts a task
//! for each and hands it to its request ([`Gameplay::schedule`]). Every frame the
//! caller asks each pending task how it stands and hands the answers to the
//! pump, which takes the complete requests out of the queue and reports the
//! progress of the others. The caller then takes each task's result, and
//! [`Gameplay::integrate_cubemap_face`] or [`Gameplay::integrate_texture2d`]
//! says which write to make for it, or why none can be made. A request that
//! fails is dropped with an [`AssetLoadError`]; the others go on.
//!
//! The tasks themselves belong to the caller: a request carries its task
//! handle, of whatever type `F` the caller has, and hands it back when it
//! leaves the queue.

use vstd::prelude::*;
use vstd::string::StringExecFns;
use crate::cubemap::{CubemapArrayID, CubemapFace};
use crate::img::Metadata;
use crate::registry::{CubemapFaceUpload, Texture2DUpload, TextureArrayRegistry, UploadRefusal};
use crate::texture2d::Texture2DArrayID;
use crate::mt::TaskStatus;
use self::pump::{flags_of, pending_of, pump, ready_of, reports_of, Pumped};

pub mod pump;
pub mod startup;

verus! {

/// A face of a cubemap that is to be filled from a file.
#[derive(Debug)]
pub struct CubemapFaceRequest<F> {
    pub future: Option<F>,
    pub path: String,
    pub array_id: CubemapArrayID,
    pub cubemap_index: u32,
    pub face: CubemapFace,
}

/// A slot of an array of 2D textures that is to be filled from a file.
#[derive(Debug)]
pub struct Texture2DRequest<F> {
    pub future: Option<F>,
    pub path: String,
    pub array_id: Texture2DArrayID,
    pub slot: u32,
}

/// The requests that are still pending, in the order in which they were
/// made.
#[derive(Debug)]
pub struct Gameplay<F> {
    pub cubemap_face_requests: Vec<CubemapFaceRequest<F>>,
    pub texture2d_requests: Vec<Texture2DRequest<F>>,
}

/// How a task ended.
#[derive(Debug)]
pub enum LoadOutcome {
    /// The file was read and decoded to an image of this size and layout.
    Loaded(Metadata),
    /// The file could not be read; the message says why.
    IoError(String),
    /// The file was read but is no image; the message says why.
    DecodeError(String),
}

/// Why a request came to nothing.
#[derive(Debug)]
pub enum AssetLoadCause {
    Io(String),
    Decode(String),
    Refused(UploadRefusal),
}

/// A request that came to nothing: the file that it was for, and why.
#[derive(Debug)]
pub struct AssetLoadError {
    pub path: String,
    pub cause: AssetLoadCause,
}

/// A request for a place that its array does not have: the file that it
/// is for, the place, and how many places the array has, or `None` where
/// there is no such array.
#[derive(Debug)]
pub struct ResourceCapacityError {
    pub path: String,
    pub index: u32,
    pub capacity: Option<u32>,
}

/// How many cubemaps the array has, or `None` where there is no such array.
pub open spec fn cubemap_capacity(arrays: TextureArrayRegistry, id: CubemapArrayID) -> Option<u32> {
    if arrays.cubemap_arrays().contains_key(id.0) {
        Some(arrays.cubemap_arrays()[id.0].nb_cubemaps)
    } else {
        None
    }
}

/// How many slots the array has, or `None` where there is no such array.
pub open spec fn texture2d_capacity(arrays: TextureArrayRegistry, id: Texture2DArrayID) -> Option<
    u32,
> {
    if arrays.texture2d_arrays().contains_key(id.0) {
        Some(arrays.texture2d_arrays()[id.0].nb_slots)
    } else {
        None
    }
}

/// An array of that many places has the place `index`.
pub open spec fn has_place(capacity: Option<u32>, index: u32) -> bool {
    capacity is Some && index < capacity->0
}

impl AssetLoadCause {
    /// The cause that the outcome of a task gives for a request that was
    /// refused with `refusal` where the image was loaded.
    pub open spec fn explains(self, outcome: LoadOutcome, refusal: Option<UploadRefusal>) -> bool {
        match outcome {
            LoadOutcome::Loaded(_) => refusal is Some && self == AssetLoadCause::Refused(
                refusal->0,
            ),
            LoadOutcome::IoError(message) => match self {
                AssetLoadCause::Io(text) => text@ == message@,
                _ => false,
            },
            LoadOutcome::DecodeError(message) => match self {
                AssetLoadCause::Decode(text) => text@ == message@,
                _ => false,
            },
        }
    }
}

impl<F> Gameplay<F> {
    /// Every pending request carries its task.
    pub open spec fn scheduled(&self) -> bool {
        &&& forall|k: int|
            0 <= k < self.cubemap_face_requests@.len()
                ==> (#[trigger] self.cubemap_face_requests@[k]).future is Some
        &&& forall|k: int|
            0 <= k < self.texture2d_requests@.len()
                ==> (#[trigger] self.texture2d_requests@[k]).future is Some
    }

    /// Hands every pending request its task: the `k`-th handle of
    /// `cubemap_faces` goes to the `k`-th cubemap face request, the `k`-th of
    /// `texture2ds` to the `k`-th 2D texture request, and nothing else
    /// changes. There must be one handle for each request; where the numbers
    /// differ, nothing is attached and `false` comes back.
    pub fn schedule(&mut self, cubemap_faces: Vec<F>, texture2ds: Vec<F>) -> (attached: bool)
        ensures
            attached == (cubemap_faces@.len() == old(self).cubemap_face_requests@.len()
                && texture2ds@.len() == old(self).texture2d_requests@.len()),
            final(self).cubemap_face_requests@.len() == old(self).cubemap_face_requests@.len(),
            final(self).texture2d_requests@.len() == old(self).texture2d_requests@.len(),
            attached ==> final(self).scheduled(),
            attached ==> forall|k: int|
                0 <= k < cubemap_faces@.len() ==> #[trigger] final(self).cubemap_face_requests@[k]
                    == (CubemapFaceRequest {
                    future: Some(cubemap_faces@[k]),
                    ..old(self).cubemap_face_requests@[k]
                }),
            attached ==> forall|k: int|
                0 <= k < texture2ds@.len() ==> #[trigger] final(self).texture2d_requests@[k]
                    == (Texture2DRequest {
                    future: Some(texture2ds@[k]),
                    ..old(self).texture2d_requests@[k]
                }),
            !attached ==> final(self).cubemap_face_requests@ == old(self).cubemap_face_requests@
                && final(self).texture2d_requests@ == old(self).texture2d_requests@,
    {
        if cubemap_faces.len() != self.cubemap_face_requests.len() || texture2ds.len()
            != self.texture2d_requests.len() {
            return false;
        }
        let mut handles = cubemap_faces;
        let mut k: usize = handles.len();
        while k > 0
            invariant
                k == handles@.len(),
                k <= cubemap_faces@.len(),
                handles@ == cubemap_faces@.take(k as int),
                self.cubemap_face_requests@.len() == old(self).cubemap_face_requests@.len(),
                cubemap_faces@.len() == old(self).cubemap_face_requests@.len(),
                self.texture2d_requests@ == old(self).texture2d_requests@,
                forall|j: int|
                    0 <= j < k ==> #[trigger] self.cubemap_face_requests@[j] == old(
                        self,
                    ).cubemap_face_requests@[j],
                forall|j: int|
                    k <= j < cubemap_faces@.len() ==> #[trigger] self.cubemap_face_requests@[j]
                        == (CubemapFaceRequest {
                        future: Some(cubemap_faces@[j]),
                        ..old(self).cubemap_face_requests@[j]
                    }),
            decreases k,
        {
            k -= 1;
            let handle = match handles.pop() {
                Some(handle) => handle,
                None => vstd::pervasive::unreached(),
            };
            assert(handles@ =~= cubemap_faces@.take(k as int));
            self.cubemap_face_requests[k].future = Some(handle);
        }
        let mut handles = texture2ds;
        let mut k: usize = handles.len();
        while k > 0
            invariant
                k == handles@.len(),
                k <= texture2ds@.len(),
                handles@ == texture2ds@.take(k as int),
                self.texture2d_requests@.len() == old(self).texture2d_requests@.len(),
                texture2ds@.len() == old(self).texture2d_requests@.len(),
                self.cubemap_face_requests@.len() == old(self).cubemap_face_requests@.len(),
                forall|j: int|
                    0 <= j < cubemap_faces@.len() ==> #[trigger] self.cubemap_face_requests@[j]
                        == (CubemapFaceRequest {
                        future: Some(cubemap_faces@[j]),
                        ..old(self).cubemap_face_requests@[j]
                    }),
                forall|j: int|
                    0 <= j < k ==> #[trigger] self.texture2d_requests@[j] == old(
                        self,
                    ).texture2d_requests@[j],
                forall|j: int|
                    k <= j < texture2ds@.len() ==> #[trigger] self.texture2d_requests@[j]
                        == (Texture2DRequest {
                        future: Some(texture2ds@[j]),
                        ..old(self).texture2d_requests@[j]
                    }),
            decreases k,
        {
            k -= 1;
            let handle = match handles.pop() {
                Some(handle) => handle,
                None => vstd::pervasive::unreached(),
            };
            assert(handles@ =~= texture2ds@.take(k as int));
            self.texture2d_requests[k].future = Some(handle);
        }
        true
    }

    /// One frame for the cubemap faces: takes the complete requests out of
    /// the queue, in queue order, and says where the tasks of the others
    /// stand. `statuses` holds the answer of each pending request's task, in
    /// queue order.
    pub fn pump_cubemap_faces(&mut self, statuses: &Vec<TaskStatus>) -> (out: Pumped<
        CubemapFaceRequest<F>,
    >)
        ensures
            out.ready@ == ready_of(old(self).cubemap_face_requests@, flags_of(statuses@)),
            final(self).cubemap_face_requests@ == pending_of(
                old(self).cubemap_face_requests@,
                flags_of(statuses@),
            ),
            out.progress@ == pending_of(
                reports_of(statuses@, old(self).cubemap_face_requests@.len()),
                flags_of(statuses@),
            ),
            out.progress@.len() == final(self).cubemap_face_requests@.len(),
            final(self).texture2d_requests@ == old(self).texture2d_requests@,
    {
        pump(&mut self.cubemap_face_requests, statuses)
    }

    /// One frame for the 2D textures: takes the complete requests out of the
    /// queue, in queue order, and says where the tasks of the others stand.
    /// `statuses` holds the answer of each pending request's task, in queue
    /// order.
    pub fn pump_texture2ds(&mut self, statuses: &Vec<TaskStatus>) -> (out: Pumped<
        Texture2DRequest<F>,
    >)
        ensures
            out.ready@ == ready_of(old(self).texture2d_requests@, flags_of(statuses@)),
            final(self).texture2d_requests@ == pending_of(
                old(self).texture2d_requests@,
                flags_of(statuses@),
            ),
            out.progress@ == pending_of(
                reports_of(statuses@, old(self).texture2d_requests@.len()),
                flags_of(statuses@),
            ),
            out.progress@.len() == final(self).texture2d_requests@.len(),
            final(self).cubemap_face_requests@ == old(self).cubemap_face_requests@,
    {
        pump(&mut self.texture2d_requests, statuses)
    }

    /// One frame: pumps the cubemap faces, then the 2D textures.
    pub fn draw(&mut self, cubemap_faces: &Vec<TaskStatus>, texture2ds: &Vec<TaskStatus>) -> (out: (
        Pumped<CubemapFaceRequest<F>>,
        Pumped<Texture2DRequest<F>>,
    ))
        ensures
            out.0.ready@ == ready_of(old(self).cubemap_face_requests@, flags_of(cubemap_faces@)),
            out.1.ready@ == ready_of(old(self).texture2d_requests@, flags_of(texture2ds@)),
            final(self).cubemap_face_requests@ == pending_of(
                old(self).cubemap_face_requests@,
                flags_of(cubemap_faces@),
            ),
            final(self).texture2d_requests@ == pending_of(
                old(self).texture2d_requests@,
                flags_of(texture2ds@),
            ),
            out.0.progress@ == pending_of(
                reports_of(cubemap_faces@, old(self).cubemap_face_requests@.len()),
                flags_of(cubemap_faces@),
            ),
            out.1.progress@ == pending_of(
                reports_of(texture2ds@, old(self).texture2d_requests@.len()),
                flags_of(texture2ds@),
            ),
    {
        let faces = self.pump_cubemap_faces(cubemap_faces);
        let textures = self.pump_texture2ds(texture2ds);
        (faces, textures)
    }

    /// The `k`-th cubemap face request is for a cubemap that its array has.
    pub open spec fn face_fits(&self, arrays: TextureArrayRegistry, k: int) -> bool {
        has_place(
            cubemap_capacity(arrays, self.cubemap_face_requests@[k].array_id),
            self.cubemap_face_requests@[k].cubemap_index,
        )
    }

    /// The `k`-th 2D texture request is for a slot that its array has.
    pub open spec fn texture_fits(&self, arrays: TextureArrayRegistry, k: int) -> bool {
        has_place(
            texture2d_capacity(arrays, self.texture2d_requests@[k].array_id),
            self.texture2d_requests@[k].slot,
        )
    }

    /// The `k`-th cubemap face request is the first that does not fit, and
    /// `e` is the error for it.
    pub open spec fn face_misfit(
        &self,
        arrays: TextureArrayRegistry,
        k: int,
        e: ResourceCapacityError,
    ) -> bool {
        &&& 0 <= k < self.cubemap_face_requests@.len()
        &&& !self.face_fits(arrays, k)
        &&& forall|j: int| 0 <= j < k ==> #[trigger] self.face_fits(arrays, j)
        &&& e.path@ == self.cubemap_face_requests@[k].path@
        &&& e.index == self.cubemap_face_requests@[k].cubemap_index
        &&& e.capacity == cubemap_capacity(arrays, self.cubemap_face_requests@[k].array_id)
    }

    /// Every cubemap face request fits, the `k`-th 2D texture request is the
    /// first that does not, and `e` is the error for it.
    pub open spec fn texture_misfit(
        &self,
        arrays: TextureArrayRegistry,
        k: int,
        e: ResourceCapacityError,
    ) -> bool {
        &&& forall|j: int|
            0 <= j < self.cubemap_face_requests@.len() ==> #[trigger] self.face_fits(arrays, j)
        &&& 0 <= k < self.texture2d_requests@.len()
        &&& !self.texture_fits(arrays, k)
        &&& forall|j: int| 0 <= j < k ==> #[trigger] self.texture_fits(arrays, j)
        &&& e.path@ == self.texture2d_requests@[k].path@
        &&& e.index == self.texture2d_requests@[k].slot
        &&& e.capacity == texture2d_capacity(arrays, self.texture2d_requests@[k].array_id)
    }

    /// Checks, before the first frame, that every pending request is for a
    /// place that its array has. The error is for the first request that
    /// is not, the cubemap faces taken before the 2D textures.
    pub fn check_capacity(&self, arrays: &TextureArrayRegistry) -> (res: Result<
        (),
        ResourceCapacityError,
    >)
        ensures
            res is Ok <==> (forall|k: int|
                0 <= k < self.cubemap_face_requests@.len() ==> #[trigger] self.face_fits(
                    *arrays,
                    k,
                )) && (forall|k: int|
                0 <= k < self.texture2d_requests@.len() ==> #[trigger] self.texture_fits(
                    *arrays,
                    k,
                )),
            res matches Err(e) ==> (exists|k: int| #[trigger] self.face_misfit(*arrays, k, e)) || (
            exists|k: int| #[trigger] self.texture_misfit(*arrays, k, e)),
    {
        let mut i: usize = 0;
        while i < self.cubemap_face_requests.len()
            invariant
                i <= self.cubemap_face_requests@.len(),
                forall|k: int| 0 <= k < i ==> #[trigger] self.face_fits(*arrays, k),
            decreases self.cubemap_face_requests@.len() - i,
        {
            let req = &self.cubemap_face_requests[i];
            let capacity = match arrays.cubemap_array_info(req.array_id) {
                Some(info) => Some(info.nb_cubemaps),
                None => None,
            };
            let fits = match capacity {
                Some(n) => req.cubemap_index < n,
                None => false,
            };
            if !fits {
                let e = ResourceCapacityError {
                    path: req.path.clone(),
                    index: req.cubemap_index,
                    capacity,
                };
                assert(self.face_misfit(*arrays, i as int, e));
                return Err(e);
            }
            i += 1;
        }
        let mut j: usize = 0;
        while j < self.texture2d_requests.len()
            invariant
                j <= self.texture2d_requests@.len(),
                forall|k: int|
                    0 <= k < self.cubemap_face_requests@.len() ==> #[trigger] self.face_fits(
                        *arrays,
                        k,
                    ),
                forall|k: int| 0 <= k < j ==> #[trigger] self.texture_fits(*arrays, k),
            decreases self.texture2d_requests@.len() - j,
        {
            let req = &self.texture2d_requests[j];
            let capacity = match arrays.texture2d_array_info(req.array_id) {
                Some(info) => Some(info.nb_slots),
                None => None,
            };
            let fits = match capacity {
                Some(n) => req.slot < n,
                None => false,
            };
            if !fits {
                let e = ResourceCapacityError {
                    path: req.path.clone(),
                    index: req.slot,
                    capacity,
                };
                assert(self.texture_misfit(*arrays, j as int, e));
                return Err(e);
            }
            j += 1;
        }
        Ok(())
    }

    /// Decides what becomes of a cubemap face request whose task ended with
    /// `outcome`. Where the image was loaded and fits the array, the write
    /// to make comes back, and it goes where the request said. In every
    /// other case the error names the request's file and the cause.
    pub fn integrate_cubemap_face(
        arrays: &TextureArrayRegistry,
        request: &CubemapFaceRequest<F>,
        outcome: LoadOutcome,
    ) -> (res: Result<CubemapFaceUpload, AssetLoadError>)
        ensures
            res is Ok <==> (outcome matches LoadOutcome::Loaded(metadata) && arrays.cubemap_refusal(
                request.array_id,
                request.cubemap_index,
                metadata,
            ) is None),
            res matches Ok(upload) ==> upload == (CubemapFaceUpload {
                array_id: request.array_id,
                cubemap_index: request.cubemap_index,
                face: request.face,
            }),
            res matches Err(error) ==> error.path@ == request.path@ && error.cause.explains(
                outcome,
                if outcome is Loaded {
                    arrays.cubemap_refusal(
                        request.array_id,
                        request.cubemap_index,
                        outcome->Loaded_0,
                    )
                } else {
                    None
                },
            ),
    {
        match outcome {
            LoadOutcome::Loaded(metadata) => match arrays.cubemap_array_sub_image_2d(
                request.array_id,
                request.cubemap_index,
                request.face,
                metadata,
            ) {
                Ok(upload) => Ok(upload),
                Err(refusal) => Err(
                    AssetLoadError {
                        path: request.path.clone(),
                        cause: AssetLoadCause::Refused(refusal),
                    },
                ),
            },
            LoadOutcome::IoError(message) => Err(
                AssetLoadError { path: request.path.clone(), cause: AssetLoadCause::Io(message) },
            ),
            LoadOutcome::DecodeError(message) => Err(
                AssetLoadError {
                    path: request.path.clone(),
                    cause: AssetLoadCause::Decode(message),
                },
            ),
        }
    }

    /// Decides what becomes of a 2D texture request whose task ended with
    /// `outcome`. Where the image was loaded and fits the array, the write
    /// to make comes back, and it goes where the request said. In every
    /// other case the error names the request's file and the cause.
    pub fn integrate_texture2d(
        arrays: &TextureArrayRegistry,
        request: &Texture2DRequest<F>,
        outcome: LoadOutcome,
    ) -> (res: Result<Texture2DUpload, AssetLoadError>)
        ensures
            res is Ok <==> (outcome matches LoadOutcome::Loaded(metadata)
                && arrays.texture2d_refusal(request.array_id, request.slot, metadata) is None),
            res matches Ok(upload) ==> upload == (Texture2DUpload {
                array_id: request.array_id,
                slot: request.slot,
            }),
            res matches Err(error) ==> error.path@ == request.path@ && error.cause.explains(
                outcome,
                if outcome is Loaded {
                    arrays.texture2d_refusal(request.array_id, request.slot, outcome->Loaded_0)
                } else {
                    None
                },
            ),
    {
        match outcome {
            LoadOutcome::Loaded(metadata) => match arrays.texture2d_array_sub_image_2d(
                request.array_id,
                request.slot,
                metadata,
            ) {
                Ok(upload) => Ok(upload),
                Err(refusal) => Err(
                    AssetLoadError {
                        path: request.path.clone(),
                        cause: AssetLoadCause::Refused(refusal),
                    },
                ),
            },
            LoadOutcome::IoError(message) => Err(
                AssetLoadError { path: request.path.clone(), cause: AssetLoadCause::Io(message) },
            ),
            LoadOutcome::DecodeError(message) => Err(
                AssetLoadError {
                    path: request.path.clone(),
                    cause: AssetLoadCause::Decode(message),
                },
            ),
        }
    }
}

/// The character of a decimal digit.
pub open spec fn digit_char(d: nat) -> char {
    if d == 0 {
        '0'
    } else if d == 1 {
        '1'
    } else if d == 2 {
        '2'
    } else if d == 3 {
        '3'
    } else if d == 4 {
        '4'
    } else if d == 5 {
        '5'
    } else if d == 6 {
        '6'
    } else if d == 7 {
        '7'
    } else if d == 8 {
        '8'
    } else {
        '9'
    }
}

/// The decimal numeral of `n`, without leading zeros.
pub open spec fn decimal(n: nat) -> Seq<char>
    decreases n,
{
    if n < 10 {
        seq![digit_char(n)]
    } else {
        decimal(n / 10).push(digit_char(n % 10))
    }
}

/// An amount of memory for a reader: the whole number of the largest unit
/// among bytes, `Kb` (1024 bytes), `MiB` (1024 `Kb`) and `GiB` (1024 `MiB`)
/// of which there is at least one, followed by the unit.
pub open spec fn format_mem_text(b: nat) -> Seq<char> {
    let kb = b / 1024;
    let mib = kb / 1024;
    let gib = mib / 1024;
    if kb == 0 {
        decimal(b) + " b"@
    } else if mib == 0 {
        decimal(kb) + " Kb"@
    } else if gib == 0 {
        decimal(mib) + " MiB"@
    } else {
        decimal(gib) + " GiB"@
    }
}

fn digit_str(d: usize) -> (s: &'static str)
    requires
        d < 10,
    ensures
        s@ == seq![digit_char(d as nat)],
{
    proof {
        reveal_strlit("0");
        reveal_strlit("1");
        reveal_strlit("2");
        reveal_strlit("3");
        reveal_strlit("4");
        reveal_strlit("5");
        reveal_strlit("6");
        reveal_strlit("7");
        reveal_strlit("8");
        reveal_strlit("9");
    }
    let s = match d {
        0 => "0",
        1 => "1",
        2 => "2",
        3 => "3",
        4 => "4",
        5 => "5",
        6 => "6",
        7 => "7",
        8 => "8",
        _ => "9",
    };
    assert(s@ =~= seq![digit_char(d as nat)]);
    s
}

/// The decimal numeral of `n`.
pub fn decimal_string(n: usize) -> (s: String)
    ensures
        s@ == decimal(n as nat),
    decreases n,
{
    if n < 10 {
        String::from_str(digit_str(n))
    } else {
        let mut s = decimal_string(n / 10);
        let ghost front = s@;
        s.append(digit_str(n % 10));
        assert(s@ =~= front.push(digit_char((n % 10) as nat)));
        s
    }
}

/// Writes an amount of memory for a reader, as `format_mem_text` says.
pub fn format_mem(b: usize) -> (text: String)
    ensures
        text@ == format_mem_text(b as nat),
{
    let kb = b / 1024;
    if kb == 0 {
        let mut text = decimal_string(b);
        text.append(" b");
        return text;
    }
    let mib = kb / 1024;
    if mib == 0 {
        let mut text = decimal_string(kb);
        text.append(" Kb");
        return text;
    }
    let gib = mib / 1024;
    if gib == 0 {
        let mut text = decimal_string(mib);
        text.append(" MiB");
        return text;
    }
    let mut text = decimal_string(gib);
    text.append(" GiB");
    text
}

} // verus!
